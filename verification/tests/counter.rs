use tree::call::Identity;
use tree::counter::{initialize, Counter, Initialize};

#[test]
fn initialize_zeroes_the_counter() {
    let mut accounts = Initialize {
        counter: Counter { count: 41 },
        payer: Identity { bytes: [1; 32] },
        system_program: Identity { bytes: [0; 32] },
    };
    assert_eq!(initialize(&mut accounts), Ok(()));
    assert_eq!(accounts.counter, Counter { count: 0 });
    assert_eq!(accounts.payer, Identity { bytes: [1; 32] });
    assert_eq!(accounts.system_program, Identity { bytes: [0; 32] });
}

#[test]
fn initialize_twice_is_the_same_as_once() {
    let mut accounts = Initialize {
        counter: Counter { count: u64::MAX },
        payer: Identity { bytes: [2; 32] },
        system_program: Identity { bytes: [0; 32] },
    };
    assert_eq!(initialize(&mut accounts), Ok(()));
    let once = accounts;
    assert_eq!(initialize(&mut accounts), Ok(()));
    assert_eq!(accounts, once);
}
