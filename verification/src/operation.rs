//! The control action that is run on an item when the program ends.

use vstd::prelude::*;

verus! {

/// The kind of a control action.
#[derive(Clone, Copy, Debug, PartialEq, Eq, Structural)]
pub enum OperationType {
    Status,
    Start,
    Stop,
    Reload,
    Restart,
    Enable,
    Disable,
}

impl OperationType {
    /// The word that asks for this kind of action.
    pub open spec fn verb(self) -> Seq<char> {
        match self {
            OperationType::Status => "status"@,
            OperationType::Start => "start"@,
            OperationType::Stop => "stop"@,
            OperationType::Reload => "reload"@,
            OperationType::Restart => "restart"@,
            OperationType::Enable => "enable"@,
            OperationType::Disable => "disable"@,
        }
    }

    /// The word that asks for this kind of action.
    pub fn as_str(self) -> (r: &'static str)
        ensures
            r@ == self.verb(),
    {
        match self {
            OperationType::Status => "status",
            OperationType::Start => "start",
            OperationType::Stop => "stop",
            OperationType::Reload => "reload",
            OperationType::Restart => "restart",
            OperationType::Enable => "enable",
            OperationType::Disable => "disable",
        }
    }
}

/// A control action on the item with the given name.
#[derive(Debug)]
pub struct Operation {
    pub operation_type: OperationType,
    pub name: String,
}

/// The texts of a sequence of strings, in the same order.
pub open spec fn words(v: Seq<String>) -> Seq<Seq<char>> {
    v.map_values(|s: String| s@)
}

impl Operation {
    /// The action of the given kind on the item `name`.
    pub fn new(operation_type: OperationType, name: String) -> (r: Self)
        ensures
            r.operation_type == operation_type,
            r.name@ == name@,
    {
        Self { operation_type, name }
    }

    /// Tells whether the action needs the rights of the administrator: every
    /// kind but the query of the status does.
    pub fn needs_sudo(&self) -> (r: bool)
        ensures
            r == (self.operation_type != OperationType::Status),
    {
        self.operation_type != OperationType::Status
    }

    /// The words of the command that carries out the action: the program,
    /// after `sudo` where the action needs the rights of the
    /// administrator, the kind of the action, and the name of the item.
    pub open spec fn command_words(&self) -> Seq<Seq<char>> {
        if self.operation_type != OperationType::Status {
            seq!["sudo"@, "systemctl"@, self.operation_type.verb(), self.name@]
        } else {
            seq!["systemctl"@, self.operation_type.verb(), self.name@]
        }
    }

    /// The words of the command that carries out the action, the program
    /// first.
    pub fn command_line(&self) -> (r: Vec<String>)
        ensures
            words(r@) == self.command_words(),
    {
        let mut line: Vec<String> = Vec::new();
        if self.needs_sudo() {
            line.push("sudo".to_owned());
        }
        line.push("systemctl".to_owned());
        line.push(self.operation_type.as_str().to_owned());
        line.push(self.name.clone());
        proof {
            assert(words(line@) =~= self.command_words());
        }
        line
    }
}

} // verus!
