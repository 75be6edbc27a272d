use resource_loader::prebake::{gridlock_likely, GRIDLOCK_AGENTS};

#[test]
fn gridlock_is_likely_above_five_hundred_agents() {
    assert_eq!(GRIDLOCK_AGENTS, 500);
    assert!(!gridlock_likely(0));
    assert!(!gridlock_likely(500));
    assert!(gridlock_likely(501));
    assert!(gridlock_likely(usize::MAX));
}
