use nude::commands::{
    ContainerDiffCommand, ContainerTopCommand, ImageHistoryCommand, NetworkInspectCommand,
    NetworkLsCommand,
};

#[test]
fn commands_have_their_names() {
    assert_eq!(ContainerDiffCommand.name(), "nude container diff");
    assert_eq!(ContainerTopCommand.name(), "nude container top");
    assert_eq!(ImageHistoryCommand.name(), "nude image history");
    assert_eq!(NetworkLsCommand.name(), "nude network ls");
    assert_eq!(NetworkInspectCommand.name(), "nude network inspect");
    assert_eq!(NetworkLsCommand.description(), "List networks");
}
