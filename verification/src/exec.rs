//! Programs that are run to their end with a list of arguments.

use vstd::prelude::*;

use crate::firecracker::FirecrackerError;

verus! {

/// A program and the arguments to run it with.
#[derive(Debug, Clone, PartialEq, Eq)]
pub struct Invocation {
    pub program: String,
    pub args: Vec<String>,
}

/// What has arguments of its own.
pub trait Args {
    /// The arguments of its own, if they can be had.
    spec fn own_args(&self) -> Option<Seq<Seq<char>>>;

    /// The arguments of its own.
    fn args(&self) -> (args: Result<Vec<String>, FirecrackerError>)
        ensures
            self.own_args() is Some <==> args is Ok,
            args matches Ok(list) ==> list.deep_view() == self.own_args()->0,
    ;
}

/// What can be run.
pub trait Executable: Args {
    /// The program that is run.
    spec fn program(&self) -> Seq<char>;

    /// The invocation that runs the program with its own arguments and then
    /// `args`.
    fn exec(&self, args: &Vec<String>) -> (invocation: Result<Invocation, FirecrackerError>)
        ensures
            self.own_args() is Some <==> invocation is Ok,
            invocation matches Ok(run) ==> run.program@ == self.program() && run.args.deep_view()
                == self.own_args()->0 + args.deep_view(),
    ;

    /// Its own arguments, then `args`.
    fn concat_args(&self, args: &Vec<String>) -> (combined: Result<Vec<String>, FirecrackerError>)
        ensures
            self.own_args() is Some <==> combined is Ok,
            combined matches Ok(list) ==> list.deep_view() == self.own_args()->0
                + args.deep_view(),
    {
        let mut combined = match self.args() {
            Ok(own) => own,
            Err(error) => {
                return Err(error);
            },
        };
        let ghost own = combined.deep_view();
        let mut i: usize = 0;
        while i < args.len()
            invariant
                i <= args.len(),
                combined.len() == own.len() + i,
                forall|k: int| 0 <= k < own.len() ==> (#[trigger] combined[k])@ == own[k],
                forall|k: int|
                    own.len() <= k < combined.len() ==> (#[trigger] combined[k])@ == args[k
                        - own.len()]@,
            decreases args.len() - i,
        {
            combined.push(args[i].clone());
            i = i + 1;
        }
        Ok(combined)
    }
}

} // verus!
