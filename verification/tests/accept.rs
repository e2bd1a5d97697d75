use chaussette::accept::{AcceptAction, Acceptor};

#[test]
fn connections_are_numbered_in_order() {
    let mut acceptor = Acceptor::new();
    assert_eq!(acceptor.serve(true), AcceptAction::Serve(0));
    assert_eq!(acceptor.serve(true), AcceptAction::Serve(1));
    assert_eq!(acceptor.serve(true), AcceptAction::Serve(2));
    assert_eq!(acceptor.serve(false), AcceptAction::Stop);
    assert_eq!(acceptor.next_id, 3);
}
