//! The command line: the name of the binary, then the targets to build it
//! for.
use crate::failure::{Failure, FailureView};
use crate::text::texts;
use vstd::prelude::*;

verus! {

/// What a run is asked to do.
#[derive(Debug, Clone, PartialEq, Eq)]
pub struct Arguments {
    /// The name of the binary to package.
    pub bin_name: String,
    /// The targets to build for, in the order given.
    pub targets: Vec<String>,
}

/// [`Arguments`] as plain text.
pub struct ArgumentsView {
    pub bin_name: Seq<char>,
    pub targets: Seq<Seq<char>>,
}

impl View for Arguments {
    type V = ArgumentsView;

    open spec fn view(&self) -> ArgumentsView {
        ArgumentsView { bin_name: self.bin_name@, targets: texts(self.targets@) }
    }
}

/// The meaning of a command line `argv`, whose first word is the program
/// itself: the second word is the binary name and has to be there, all
/// further words are targets.
pub open spec fn parsed(argv: Seq<Seq<char>>) -> Result<ArgumentsView, FailureView> {
    if argv.len() < 2 {
        Err(FailureView::MissingBinaryName)
    } else {
        Ok(ArgumentsView { bin_name: argv[1], targets: argv.subrange(2, argv.len() as int) })
    }
}

impl Arguments {
    /// Reads the command line; see [`parsed`].
    pub fn parse(argv: &[String]) -> (r: Result<Arguments, Failure>)
        ensures
            match r {
                Ok(arguments) => parsed(texts(argv@)) == Ok::<ArgumentsView, FailureView>(
                    arguments@,
                ),
                Err(failure) => parsed(texts(argv@)) == Err::<ArgumentsView, FailureView>(
                    failure@,
                ),
            },
    {
        if argv.len() < 2 {
            return Err(Failure::MissingBinaryName);
        }
        let bin_name = argv[1].clone();
        let mut targets: Vec<String> = Vec::new();
        let mut at: usize = 2;
        while at < argv.len()
            invariant
                2 <= at <= argv@.len(),
                texts(targets@) == texts(argv@).subrange(2, at as int),
            decreases argv@.len() - at,
        {
            let target = argv[at].clone();
            proof {
                assert(texts(argv@).subrange(2, at as int).push(target@) =~= texts(
                    argv@,
                ).subrange(2, at + 1));
            }
            targets.push(target);
            at = at + 1;
        }
        Ok(Arguments { bin_name, targets })
    }
}

} // verus!
