use crate::models::init;
use vstd::prelude::*;

verus! {

/// The `init` command, run inside the new container.
pub struct Command {
    param: init::Parameter,
}

impl Command {
    /// The parameters the command was handed.
    pub closed spec fn param_view(&self) -> init::Parameter {
        self.param
    }

    /// The command that starts a container from `param`.
    pub fn new(param: init::Parameter) -> (cmd: Command)
        ensures
            cmd.param_view() == param,
    {
        Command { param }
    }

    /// Returns the parameters the command was handed.
    pub fn param(&self) -> (param: &init::Parameter)
        ensures
            *param == self.param_view(),
    {
        &self.param
    }
}

/// What reading the init pipe does after one read into a buffer of
/// `capacity` bytes, where `read` is the number of bytes that read gave, or
/// `None` when it failed: how many bytes to keep, and whether to read again.
/// A read that fills the buffer is followed by another; an empty, short or
/// failed read ends the reading.
pub fn pipe_read_step(read: Option<usize>, capacity: usize) -> (step: (usize, bool))
    ensures
        step.0 == (match read {
            Some(n) => n,
            None => 0,
        }),
        step.1 == (match read {
            Some(n) => n > 0 && n >= capacity,
            None => false,
        }),
{
    match read {
        Some(size) if size > 0 => (size, size >= capacity),
        Some(_) => (0, false),
        None => (0, false),
    }
}

} // verus!
