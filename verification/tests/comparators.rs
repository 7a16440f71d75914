use probe_gdb::breakpoints::{find_breakpoint, find_free_comparator, locate_breakpoint};
use probe_gdb::Error;

#[test]
fn first_free_comparator_is_found_in_index_order() {
    assert_eq!(find_free_comparator(&vec![None, None]), Ok(0));
    assert_eq!(find_free_comparator(&vec![Some(8), None, Some(4), None]), Ok(1));
    assert_eq!(find_free_comparator(&vec![Some(8), Some(4), None]), Ok(2));
}

#[test]
fn no_free_comparator_is_an_error() {
    assert_eq!(find_free_comparator(&vec![Some(8), Some(4)]), Err(Error::NoAvailableBreakpoints));
    assert_eq!(find_free_comparator(&vec![]), Err(Error::NoAvailableBreakpoints));
}

#[test]
fn breakpoint_is_found_at_its_first_comparator() {
    let slots = vec![None, Some(0x100), Some(0x200), Some(0x100)];
    assert_eq!(find_breakpoint(&slots, 0x100), Some(1));
    assert_eq!(find_breakpoint(&slots, 0x200), Some(2));
    assert_eq!(find_breakpoint(&slots, 0x300), None);
    assert_eq!(find_breakpoint(&vec![], 0), None);
}

#[test]
fn address_zero_is_not_a_free_comparator() {
    let slots = vec![None, Some(0)];
    assert_eq!(find_breakpoint(&slots, 0), Some(1));
    assert_eq!(find_free_comparator(&slots), Ok(0));
}

#[test]
fn locating_a_missing_breakpoint_names_the_address() {
    let slots = vec![Some(0x100), None];
    assert_eq!(locate_breakpoint(&slots, 0x100), Ok(0));
    assert_eq!(locate_breakpoint(&slots, 0x104), Err(Error::BreakpointNotFound(0x104)));
    assert_eq!(locate_breakpoint(&vec![], 7), Err(Error::BreakpointNotFound(7)));
}
