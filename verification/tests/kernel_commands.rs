use kernel::kernel::{client_timed_out, command_lacks_argument, kernel_command, kernel_reply, KernelCommand, Note, Parcel, ReplyShape, ReturnData, Target};

#[test]
fn create_user_command() {
    match kernel_command("  ~1#{\"name\":\"x\"}\n") {
        KernelCommand::Send(Target::Chain, Note(101, Parcel::String(doc)), ReplyShape::DidKeys) => {
            assert_eq!(doc, "{\"name\":\"x\"}");
        }
        other => panic!("unexpected {:?}", other),
    }
}

#[test]
fn create_app_command_needs_no_argument() {
    assert!(matches!(kernel_command("~2"),
        KernelCommand::Send(Target::Chain, Note(102, Parcel::Empty), ReplyShape::DidKeys)));
}

#[test]
fn authenticate_and_insert_commands() {
    assert!(matches!(kernel_command("~3#seed words"),
        KernelCommand::Send(Target::Chain, Note(103, Parcel::String(ref k)), ReplyShape::ExistsDid) if k == "seed words"));
    assert!(matches!(kernel_command("~4#s#k#v#a"),
        KernelCommand::Send(Target::Network, Note(103, Parcel::String(ref p)), ReplyShape::ExistsDid) if p == "s#k#v#a"));
}

#[test]
fn commands_without_argument_are_told_apart() {
    assert!(command_lacks_argument("~1"));
    assert!(command_lacks_argument("  ~3 "));
    assert!(command_lacks_argument("~4"));
    assert!(!command_lacks_argument("~2"));
    assert!(!command_lacks_argument("~1#"));
    assert!(!command_lacks_argument("~4#s#k"));
    assert!(!command_lacks_argument("hello"));
    assert!(!command_lacks_argument("~13"));
}

#[test]
fn other_messages_are_ignored() {
    assert!(matches!(kernel_command("hello"), KernelCommand::Ignore));
    assert!(matches!(kernel_command("~5#x"), KernelCommand::Ignore));
    assert!(matches!(kernel_command(""), KernelCommand::Ignore));
    assert!(matches!(kernel_command("~13"), KernelCommand::Ignore));
}

#[test]
fn empty_argument_is_sent() {
    assert!(matches!(kernel_command("~1#"),
        KernelCommand::Send(Target::Chain, Note(101, Parcel::String(ref d)), ReplyShape::DidKeys) if d.is_empty()));
}

#[test]
fn replies_are_sorted_json() {
    let ok = kernel_reply(ReplyShape::DidKeys, Some(ReturnData(Parcel::Tuple1("did:sam:root:x".to_string(), "a b".to_string()))));
    assert_eq!(ok, "{\"did\":\"did:sam:root:x\",\"error\":false,\"keys\":\"a b\"}");
    let ex = kernel_reply(ReplyShape::ExistsDid, Some(ReturnData(Parcel::Tuple1("true".to_string(), "d\"".to_string()))));
    assert_eq!(ex, "{\"did\":\"d\\\"\",\"error\":false,\"exists\":\"true\"}");
}

#[test]
fn error_reply_for_other_answers() {
    let err = "{\"error\":true,\"res\":\"fatal: an error has occured\"}";
    assert_eq!(kernel_reply(ReplyShape::DidKeys, None), err);
    assert_eq!(kernel_reply(ReplyShape::DidKeys, Some(ReturnData(Parcel::Empty))), err);
    assert_eq!(kernel_reply(ReplyShape::ExistsDid, Some(ReturnData(Parcel::String("blessed assurance!".to_string())))), err);
}

#[test]
fn heartbeat_timeout_is_strictly_after_ten_seconds() {
    assert!(!client_timed_out(10_000_000_000));
    assert!(client_timed_out(10_000_000_001));
    assert!(!client_timed_out(0));
}
