//! Plain descriptions of the commands the tool runs.
//!
//! The verified planners build [`CmdSpec`] values; executing them (and
//! collecting [`ShellOutput`]) is left to the unverified shell around the
//! library.

use vstd::prelude::*;

verus! {

/// One command to run: working directory, program, arguments.
#[derive(Clone, Debug)]
pub struct CmdSpec {
    pub dir: String,
    pub program: String,
    pub args: Vec<String>,
}

/// Mathematical image of a [`CmdSpec`].
#[verifier::ext_equal]
pub struct CmdSpecV {
    pub dir: Seq<char>,
    pub program: Seq<char>,
    pub args: Seq<Seq<char>>,
}

impl View for CmdSpec {
    type V = CmdSpecV;

    open spec fn view(&self) -> CmdSpecV {
        CmdSpecV { dir: self.dir@, program: self.program@, args: self.args.deep_view() }
    }
}

impl DeepView for CmdSpec {
    type V = CmdSpecV;

    open spec fn deep_view(&self) -> CmdSpecV {
        self.view()
    }
}

/// What a command printed on its two output streams.
#[derive(Clone, Debug)]
pub struct ShellOutput {
    pub stdout: String,
    pub stderr: String,
}

} // verus!
