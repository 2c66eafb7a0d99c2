use tapplet_host::registry::ShutdownTokens;
use tokio_util::sync::CancellationToken;

#[test]
fn register_and_cancel_one_server() {
    let mut reg = ShutdownTokens::new();
    let token = CancellationToken::new();
    reg.register(3, token.clone());
    assert!(reg.contains(3));
    assert_eq!(reg.len(), 1);
    assert!(!token.is_cancelled());
    assert!(reg.cancel(3));
    assert!(token.is_cancelled());
    assert!(!reg.contains(3));
    assert_eq!(reg.len(), 0);
}

#[test]
fn double_register_triggers_the_first_handle() {
    // Registering id 7 twice: the first handle fires, the entry points to
    // the second.
    let mut reg = ShutdownTokens::new();
    let a = CancellationToken::new();
    let b = CancellationToken::new();
    reg.register(7, a.clone());
    reg.register(7, b.clone());
    assert!(a.is_cancelled());
    assert!(!b.is_cancelled());
    assert_eq!(reg.len(), 1);
    assert!(reg.cancel(7));
    assert!(b.is_cancelled());
}

#[test]
fn cancelling_twice_equals_cancelling_once() {
    let mut reg = ShutdownTokens::new();
    let token = CancellationToken::new();
    reg.register(1, token.clone());
    assert!(reg.cancel(1));
    assert!(token.is_cancelled());
    // The second cancellation reports nothing to cancel and changes nothing.
    assert!(!reg.cancel(1));
    assert!(token.is_cancelled());
    assert_eq!(reg.len(), 0);
}

#[test]
fn triggering_a_token_repeatedly_has_one_effect() {
    let token = CancellationToken::new();
    let observer = token.clone();
    token.cancel();
    assert!(observer.is_cancelled());
    token.cancel();
    token.cancel();
    assert!(observer.is_cancelled());
}

#[test]
fn cancel_of_an_unknown_id_reports_nothing() {
    let mut reg = ShutdownTokens::new();
    assert!(!reg.cancel(42));
    let token = CancellationToken::new();
    reg.register(1, token.clone());
    assert!(!reg.cancel(2));
    assert!(!token.is_cancelled());
}

#[test]
fn cancel_all_triggers_every_handle() {
    let mut reg = ShutdownTokens::new();
    let tokens: Vec<CancellationToken> = (0..5).map(|_| CancellationToken::new()).collect();
    for (i, t) in tokens.iter().enumerate() {
        reg.register(i as i32, t.clone());
    }
    assert_eq!(reg.len(), 5);
    reg.cancel_all();
    assert_eq!(reg.len(), 0);
    for t in tokens.iter() {
        assert!(t.is_cancelled());
    }
}
