use agent_client_protocol::schema::v1::ToolKind;
use create_thread_tool::CreateThreadTool;

type Tool = CreateThreadTool<u64, u64, u64, String>;

#[test]
fn name_is_create_thread() {
    assert_eq!(Tool::name(), "create_thread");
}

#[test]
fn name_is_the_same_on_every_call() {
    assert_eq!(Tool::name(), Tool::name());
    assert_eq!(CreateThreadTool::<String, (), (), ()>::name(), "create_thread");
}

#[test]
fn kind_is_other() {
    assert_eq!(Tool::kind(), ToolKind::Other);
}

#[test]
fn kind_is_none_of_the_effect_kinds() {
    let kind = Tool::kind();
    assert_ne!(kind, ToolKind::Edit);
    assert_ne!(kind, ToolKind::Read);
    assert_ne!(kind, ToolKind::Execute);
    assert_ne!(kind, ToolKind::Delete);
}

#[test]
fn kind_is_the_protocol_default() {
    assert_eq!(Tool::kind(), ToolKind::default());
}
