use phipsboot::mem::stack::CanaryMismatchError;
use phipsboot::mem::stack::Stack;
use phipsboot::mem::stack::CANARY;

#[test]
fn canary() {
    let mut stack: Stack<65536> = Stack::new();
    assert_eq!(Ok(()), stack.check_canary());
    stack.canary = 5;
    assert_eq!(
        Err(CanaryMismatchError {
            expected: CANARY,
            actual: 5,
        }),
        stack.check_canary()
    );

    assert!(stack.bottom() < stack.top());
}

#[test]
fn calculations() {
    let stack = Stack::<1024>::new();
    assert!(stack.bottom() < stack.top());
    assert!(stack.adjusted_top() < stack.top());
    assert_eq!(stack.bottom() as u64 + 1024, stack.top() as u64);
}

#[test]
fn stack_canary_mismatch_carries_both_values() {
    let mut stack: Stack<1024> = Stack::new();
    stack.canary = 0xbad0_bad0_bad0_bad0;
    let err = stack.check_canary().unwrap_err();
    assert_eq!(err.expected, 0x13371337_deadbeef);
    assert_eq!(err.actual, 0xbad0_bad0_bad0_bad0);
}

#[test]
fn stack_sanity_checks_accept_a_live_pointer_in_bounds() {
    let stack: Stack<1024> = Stack::new();
    assert!(stack.sanity_checks(stack.bottom()));
    assert!(stack.sanity_checks(stack.top() - 1));
    assert!(!stack.sanity_checks(stack.top()));
    assert!(!stack.sanity_checks(0));
}

#[test]
fn stack_sanity_checks_fail_on_a_broken_canary() {
    let mut stack: Stack<1024> = Stack::new();
    let sp = stack.bottom() + 16;
    assert!(stack.sanity_checks(sp));
    stack.canary = 0;
    assert!(!stack.sanity_checks(sp));
}

#[test]
fn stack_usage_counts_down_from_the_top() {
    let stack: Stack<1024> = Stack::new();
    assert_eq!(stack.usage(stack.top()), 0);
    assert_eq!(stack.usage(stack.top() - 64), 64);
    assert_eq!(stack.usage(stack.bottom()), 1024);
}

#[test]
fn stack_usable_size_spans_bottom_to_adjusted_top() {
    let stack: Stack<1024> = Stack::new();
    assert_eq!(stack.usable_size(), stack.adjusted_top() - stack.bottom());
    assert_eq!(stack.usable_size(), 1016);
}
