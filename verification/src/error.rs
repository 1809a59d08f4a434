//! What can go wrong while a command line is resolved.
use crate::decimal::{decimal, decimal_string};
use vstd::prelude::*;

verus! {

/// The three forms a command line can take, told apart by its first token.
#[derive(Debug, Clone, Copy, PartialEq, Eq, Structural)]
pub enum OperationKind {
    /// The first token is the verb `add`.
    Add,
    /// The first token is the verb `remove`.
    Remove,
    /// Any other first token: the token is itself the key to print.
    Print,
}

/// How many arguments an operation accepts: between `least` and `most`.
#[derive(Debug, Clone, Copy, PartialEq, Eq, Structural)]
pub struct Arity {
    pub least: usize,
    pub most: usize,
}

impl Arity {
    /// The arity in words: the one number where only one is accepted, else
    /// the least and the most joined by `or`.
    pub open spec fn text(self) -> Seq<char> {
        if self.least == self.most {
            decimal(self.least as nat)
        } else {
            decimal(self.least as nat) + " or "@ + decimal(self.most as nat)
        }
    }

    /// Writes the arity out in words.
    pub fn describe(&self) -> (text: String)
        ensures
            text@ == self.text(),
    {
        let mut text = decimal_string(self.least);
        if self.least != self.most {
            text.append(" or ");
            text.append(decimal_string(self.most).as_str());
        }
        text
    }
}

impl OperationKind {
    /// The kind that a first token selects. The match is exact and
    /// case-sensitive, `add` is tried before `remove`, and everything else
    /// falls back to printing.
    pub open spec fn of_verb(token: Seq<char>) -> OperationKind {
        if token == "add"@ {
            OperationKind::Add
        } else if token == "remove"@ {
            OperationKind::Remove
        } else {
            OperationKind::Print
        }
    }

    /// The operation's name as it appears in messages.
    pub open spec fn name_text(self) -> Seq<char> {
        match self {
            OperationKind::Add => "add"@,
            OperationKind::Remove => "remove"@,
            OperationKind::Print => "print"@,
        }
    }

    /// The number of arguments the operation expects: two for `add`, one
    /// for `remove`, none or one for `print`.
    pub open spec fn spec_arity(self) -> Arity {
        match self {
            OperationKind::Add => Arity { least: 2, most: 2 },
            OperationKind::Remove => Arity { least: 1, most: 1 },
            OperationKind::Print => Arity { least: 0, most: 1 },
        }
    }

    /// Classifies a first token.
    pub fn from_verb(token: &String) -> (kind: OperationKind)
        ensures
            kind == OperationKind::of_verb(token@),
    {
        let add = "add".to_owned();
        let remove = "remove".to_owned();
        if *token == add {
            OperationKind::Add
        } else if *token == remove {
            OperationKind::Remove
        } else {
            OperationKind::Print
        }
    }

    /// The operation's name.
    pub fn name(self) -> (name: &'static str)
        ensures
            name@ == self.name_text(),
    {
        match self {
            OperationKind::Add => "add",
            OperationKind::Remove => "remove",
            OperationKind::Print => "print",
        }
    }

    /// The operation's arity.
    #[verifier::when_used_as_spec(spec_arity)]
    pub fn arity(self) -> (arity: Arity)
        ensures
            arity == self.spec_arity(),
    {
        match self {
            OperationKind::Add => Arity { least: 2, most: 2 },
            OperationKind::Remove => Arity { least: 1, most: 1 },
            OperationKind::Print => Arity { least: 0, most: 1 },
        }
    }
}

/// A failure of resolution. Each one ends the invocation; none is retried.
#[derive(Debug, Clone, Copy, PartialEq, Eq)]
pub enum ConfigError {
    /// The operation was given `actual` arguments where it accepts
    /// `expected`.
    ArgumentCountMismatch { operation: OperationKind, expected: Arity, actual: usize },
    /// No explicit path was given for the store and the variable `name`,
    /// from which the default is derived, is not set.
    MissingEnvironmentVariable { name: &'static str },
    /// No explicit working directory was given and the process could not
    /// tell its own.
    WorkingDirectoryUnavailable,
}

impl ConfigError {
    /// The error for an operation that was handed `supplied` arguments
    /// where its arity admits another number.
    pub open spec fn spec_mismatch(kind: OperationKind, supplied: int) -> ConfigError {
        ConfigError::ArgumentCountMismatch {
            operation: kind,
            expected: kind.spec_arity(),
            actual: supplied as usize,
        }
    }

    /// Builds the error for a wrong number of arguments.
    pub fn mismatch(kind: OperationKind, supplied: usize) -> (error: ConfigError)
        ensures
            error == ConfigError::spec_mismatch(kind, supplied as int),
    {
        ConfigError::ArgumentCountMismatch {
            operation: kind,
            expected: kind.arity(),
            actual: supplied,
        }
    }

    /// What the error says to the user.
    pub open spec fn message_text(self) -> Seq<char> {
        match self {
            ConfigError::ArgumentCountMismatch { operation, expected, actual } => {
                "operation "@ + operation.name_text() + " expects "@ + expected.text()
                    + " arguments but got "@ + decimal(actual as nat)
            },
            ConfigError::MissingEnvironmentVariable { name } => "unable to get "@ + name@,
            ConfigError::WorkingDirectoryUnavailable => "error getting current directory"@,
        }
    }

    /// Renders the error for the user.
    pub fn message(&self) -> (text: String)
        ensures
            text@ == self.message_text(),
    {
        match *self {
            ConfigError::ArgumentCountMismatch { operation, expected, actual } => {
                let mut text = "operation ".to_owned();
                text.append(operation.name());
                text.append(" expects ");
                text.append(expected.describe().as_str());
                text.append(" arguments but got ");
                text.append(decimal_string(actual).as_str());
                text
            },
            ConfigError::MissingEnvironmentVariable { name } => {
                let mut text = "unable to get ".to_owned();
                text.append(name);
                text
            },
            ConfigError::WorkingDirectoryUnavailable => "error getting current directory".to_owned(),
        }
    }
}

} // verus!
