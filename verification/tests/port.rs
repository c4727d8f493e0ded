use zcash_local_net::error::LaunchError;
use zcash_local_net::port::{choose_port, pick_unused_port};

#[test]
fn a_fixed_port_is_taken_as_it_is() {
    assert!(matches!(pick_unused_port(Some(18232)), Ok(18232)));
    assert!(matches!(pick_unused_port(Some(1)), Ok(1)));
    assert!(matches!(pick_unused_port(Some(65535)), Ok(65535)));
}

#[test]
fn without_a_fixed_port_one_is_looked_for() {
    match pick_unused_port(None) {
        Ok(_) => (),
        Err(LaunchError::NoFreePort) => (),
        Err(other) => panic!("unexpected error: {:?}", other),
    }
}

#[test]
fn a_fixed_port_is_preferred_to_one_that_was_found() {
    assert!(matches!(choose_port(Some(8232), Some(20000)), Ok(8232)));
    assert!(matches!(choose_port(Some(8232), None), Ok(8232)));
}

#[test]
fn a_port_that_was_found_is_taken_where_none_is_fixed() {
    assert!(matches!(choose_port(None, Some(20000)), Ok(20000)));
}

#[test]
fn no_port_is_an_error() {
    assert!(matches!(choose_port(None, None), Err(LaunchError::NoFreePort)));
}
