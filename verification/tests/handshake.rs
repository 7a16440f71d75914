use probe_gdb::packet::{CheckedPacket, Kind};
use probe_gdb::writer::{take_reply, Action, Reply, Stage, Writer};

fn ok_packet() -> CheckedPacket {
    CheckedPacket { kind: Kind::Packet, data: b"OK".to_vec(), checksum: *b"9a" }
}

/// Runs a writer against a peer whose bytes arrive in the given reads, and
/// returns the frames that were sent and the reads that were used up.
fn run(writer: &mut Writer, reads: &[&[u8]], buffer: &mut Vec<u8>) -> (Vec<Vec<u8>>, usize) {
    let mut sent = Vec::new();
    let mut used = 0;
    loop {
        match writer.action() {
            Action::Send => {
                sent.push(writer.frame().to_vec());
                writer.sent();
            }
            Action::Read => {
                if used == reads.len() {
                    return (sent, used);
                }
                writer.received(reads[used], buffer);
                used += 1;
            }
            Action::Proceed => return (sent, used),
        }
    }
}

#[test]
fn take_reply_removes_the_first_ack() {
    let mut buffer = b"ab+cd".to_vec();
    assert_eq!(take_reply(&mut buffer), Some(Reply::Ack));
    assert_eq!(buffer, b"abcd".to_vec());
}

#[test]
fn take_reply_removes_the_first_nack() {
    let mut buffer = b"-+".to_vec();
    assert_eq!(take_reply(&mut buffer), Some(Reply::Nack));
    assert_eq!(buffer, b"+".to_vec());
    assert_eq!(take_reply(&mut buffer), Some(Reply::Ack));
    assert_eq!(buffer, Vec::<u8>::new());
}

#[test]
fn take_reply_leaves_other_bytes_alone() {
    let mut buffer = b"$qSupported#37".to_vec();
    assert_eq!(take_reply(&mut buffer), None);
    assert_eq!(buffer, b"$qSupported#37".to_vec());
    let mut empty: Vec<u8> = Vec::new();
    assert_eq!(take_reply(&mut empty), None);
    assert!(empty.is_empty());
}

#[test]
fn take_reply_takes_only_one_byte() {
    let mut buffer = b"x++".to_vec();
    assert_eq!(take_reply(&mut buffer), Some(Reply::Ack));
    assert_eq!(buffer, b"x+".to_vec());
}

#[test]
fn new_writer_is_to_send_the_encoded_frame() {
    let writer = Writer::new(&ok_packet());
    assert_eq!(writer.stage(), Stage::Send);
    assert_eq!(writer.action(), Action::Send);
    assert_eq!(writer.frame(), b"$OK#9a");
}

#[test]
fn ack_ends_the_exchange_after_one_send() {
    let mut writer = Writer::new(&ok_packet());
    let mut buffer = Vec::new();
    let (sent, used) = run(&mut writer, &[b"+"], &mut buffer);
    assert_eq!(sent, vec![b"$OK#9a".to_vec()]);
    assert_eq!(used, 1);
    assert_eq!(writer.stage(), Stage::Done);
    assert_eq!(writer.action(), Action::Proceed);
    assert!(buffer.is_empty());
}

#[test]
fn nack_then_ack_sends_the_same_frame_twice() {
    let mut writer = Writer::new(&ok_packet());
    let mut buffer = Vec::new();
    let (sent, used) = run(&mut writer, &[b"$m0,4#fd-", b"$m4,4#01+"], &mut buffer);
    assert_eq!(sent.len(), 2);
    assert_eq!(sent[0], b"$OK#9a".to_vec());
    assert_eq!(sent[1], sent[0]);
    assert_eq!(used, 2);
    assert_eq!(writer.stage(), Stage::Done);
    assert_eq!(buffer, b"$m0,4#fd$m4,4#01".to_vec());
}

#[test]
fn writer_does_not_proceed_before_the_ack() {
    let mut writer = Writer::new(&ok_packet());
    let mut buffer = Vec::new();
    let (sent, _) = run(&mut writer, &[b"abc-"], &mut buffer);
    assert_eq!(sent.len(), 2);
    assert_eq!(writer.stage(), Stage::AwaitAck);
    assert_eq!(writer.action(), Action::Read);
    let (more, _) = run(&mut writer, &[b"def"], &mut buffer);
    assert!(more.is_empty());
    assert_eq!(writer.action(), Action::Read);
    let (more, _) = run(&mut writer, &[b"+"], &mut buffer);
    assert!(more.is_empty());
    assert_eq!(writer.action(), Action::Proceed);
    assert_eq!(buffer, b"abcdef".to_vec());
}

#[test]
fn both_replies_in_one_read_are_taken_one_per_read() {
    let mut writer = Writer::new(&ok_packet());
    let mut buffer = Vec::new();
    let (sent, used) = run(&mut writer, &[b"r1-r2+", b""], &mut buffer);
    assert_eq!(sent.len(), 2);
    assert_eq!(sent[0], sent[1]);
    assert_eq!(used, 2);
    assert_eq!(writer.stage(), Stage::Done);
    assert_eq!(buffer, b"r1r2".to_vec());
}

#[test]
fn empty_read_keeps_waiting() {
    let mut writer = Writer::new(&ok_packet());
    let mut buffer = b"kept".to_vec();
    writer.sent();
    writer.received(b"", &mut buffer);
    assert_eq!(writer.stage(), Stage::AwaitAck);
    assert_eq!(buffer, b"kept".to_vec());
}

#[test]
fn reply_already_in_the_buffer_counts() {
    let mut writer = Writer::new(&ok_packet());
    let mut buffer = b"x+y".to_vec();
    writer.sent();
    writer.received(b"z", &mut buffer);
    assert_eq!(writer.stage(), Stage::Done);
    assert_eq!(buffer, b"xyz".to_vec());
}

#[test]
fn three_nacks_send_four_times() {
    let mut writer = Writer::new(&ok_packet());
    let mut buffer = Vec::new();
    let (sent, _) = run(&mut writer, &[b"-", b"-", b"-", b"+"], &mut buffer);
    assert_eq!(sent.len(), 4);
    assert!(sent.iter().all(|frame| frame == &b"$OK#9a".to_vec()));
    assert_eq!(writer.stage(), Stage::Done);
}

#[test]
fn events_out_of_turn_change_no_stage() {
    let mut writer = Writer::new(&ok_packet());
    let mut buffer = Vec::new();
    writer.received(b"+", &mut buffer);
    assert_eq!(writer.stage(), Stage::Send);
    assert_eq!(buffer, b"+".to_vec());
    writer.sent();
    writer.sent();
    assert_eq!(writer.stage(), Stage::AwaitAck);
    writer.received(b"", &mut buffer);
    assert_eq!(writer.stage(), Stage::Done);
    writer.sent();
    assert_eq!(writer.stage(), Stage::Done);
    writer.received(b"-", &mut buffer);
    assert_eq!(writer.stage(), Stage::Done);
    assert_eq!(buffer, b"-".to_vec());
    assert_eq!(writer.frame(), b"$OK#9a");
}
