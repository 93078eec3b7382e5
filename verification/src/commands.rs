//! The shell commands: their names and descriptions. What each computes stands in the modules
//! that build its rows.
use vstd::prelude::*;

verus! {

/// `nude container diff`: filesystem changes to a container since it started.
pub struct ContainerDiffCommand;

/// `nude container top`: running processes in a container.
pub struct ContainerTopCommand;

/// `nude image history`: layer history of an image.
pub struct ImageHistoryCommand;

/// `nude network ls`: the networks of the daemon.
pub struct NetworkLsCommand;

/// `nude network inspect`: one network by name or ID.
pub struct NetworkInspectCommand;

impl ContainerDiffCommand {
    pub fn name(&self) -> (r: &'static str)
        ensures
            r@ == "nude container diff"@,
    {
        "nude container diff"
    }

    pub fn description(&self) -> (r: &'static str)
        ensures
            r@ == "Filesystem changes to a container since it started"@,
    {
        "Filesystem changes to a container since it started"
    }
}

impl ContainerTopCommand {
    pub fn name(&self) -> (r: &'static str)
        ensures
            r@ == "nude container top"@,
    {
        "nude container top"
    }

    pub fn description(&self) -> (r: &'static str)
        ensures
            r@ == "Running processes in a container (like `docker top`)"@,
    {
        "Running processes in a container (like `docker top`)"
    }
}

impl ImageHistoryCommand {
    pub fn name(&self) -> (r: &'static str)
        ensures
            r@ == "nude image history"@,
    {
        "nude image history"
    }

    pub fn description(&self) -> (r: &'static str)
        ensures
            r@ == "Layer history of an image (like `docker history`)"@,
    {
        "Layer history of an image (like `docker history`)"
    }
}

impl NetworkLsCommand {
    pub fn name(&self) -> (r: &'static str)
        ensures
            r@ == "nude network ls"@,
    {
        "nude network ls"
    }

    pub fn description(&self) -> (r: &'static str)
        ensures
            r@ == "List networks"@,
    {
        "List networks"
    }
}

impl NetworkInspectCommand {
    pub fn name(&self) -> (r: &'static str)
        ensures
            r@ == "nude network inspect"@,
    {
        "nude network inspect"
    }

    pub fn description(&self) -> (r: &'static str)
        ensures
            r@ == "Inspect a network by name/ID"@,
    {
        "Inspect a network by name/ID"
    }
}

} // verus!
