//! The command line: input modules and the output file.

use vstd::prelude::*;
use vstd::string::*;
use crate::text::same_text;

verus! {

/// The flag that stands before the path of the output file.
pub const OUTPUT_FLAG: &'static str = "-o";

/// The complaint about a command line that names no input.
pub const MISSING_INPUT: &'static str = "Required a input file";

/// The complaint about a command line that names no output.
pub const MISSING_OUTPUT: &'static str = "Required a output file";

/// What a command line asks for.
pub struct Request {
    pub inputs: Seq<Seq<char>>,
    pub output: Option<Seq<char>>,
}

impl Request {
    /// The request that asks for nothing.
    pub open spec fn empty() -> Request {
        Request { inputs: Seq::empty(), output: None }
    }

    /// What the words from `at` on add to the request `self`: the word
    /// behind each output flag is the output, the last such flag deciding,
    /// and every other word is one more input. A flag at the very end
    /// takes the output away.
    pub open spec fn extended(self, words: Seq<Seq<char>>, at: int) -> Request
        decreases words.len() - at,
    {
        if at < 0 || at >= words.len() {
            self
        } else if words[at] == OUTPUT_FLAG@ {
            if at + 1 < words.len() {
                (Request { inputs: self.inputs, output: Some(words[at + 1]) }).extended(
                    words,
                    at + 2,
                )
            } else {
                Request { inputs: self.inputs, output: None }
            }
        } else {
            (Request { inputs: self.inputs.push(words[at]), output: self.output }).extended(
                words,
                at + 1,
            )
        }
    }

    /// The request of a command line, whose first word is the program's
    /// own name.
    pub open spec fn of(words: Seq<Seq<char>>) -> Request {
        Self::empty().extended(words, 1)
    }
}

/// The paths that a command line names.
pub struct Arguments {
    pub input_file_paths: Vec<String>,
    pub output_file_path: String,
}

impl Arguments {
    /// Reads the command line `args`, whose first word is the program's
    /// own name. At least one input and the output must be named.
    pub fn build(args: Vec<String>) -> (built: Result<Self, &'static str>)
        ensures
            Request::of(args.deep_view()).inputs.len() == 0 ==> built is Err && built->Err_0@
                == MISSING_INPUT@,
            Request::of(args.deep_view()).inputs.len() > 0 && Request::of(
                args.deep_view(),
            ).output is None ==> built is Err && built->Err_0@ == MISSING_OUTPUT@,
            Request::of(args.deep_view()).inputs.len() > 0 && Request::of(
                args.deep_view(),
            ).output is Some ==> built is Ok && built->Ok_0.input_file_paths.deep_view()
                == Request::of(args.deep_view()).inputs && built->Ok_0.output_file_path@
                == Request::of(args.deep_view()).output->Some_0,
    {
        let ghost words = args.deep_view();
        assert(words.len() == args@.len());
        let mut output_file_path: Option<String> = None;
        let mut input_file_paths: Vec<String> = Vec::new();
        assert(input_file_paths.deep_view() =~= Seq::<Seq<char>>::empty());
        let mut at: usize = 1;
        while at < args.len()
            invariant
                words == args.deep_view(),
                words.len() == args@.len(),
                1 <= at,
                Request::of(words) == (Request {
                    inputs: input_file_paths.deep_view(),
                    output: output_file_path.deep_view(),
                }).extended(words, at as int),
            decreases args.len() - at,
        {
            assert(words[at as int] == args@[at as int]@);
            if same_text(args[at].as_str(), OUTPUT_FLAG) {
                if at + 1 < args.len() {
                    assert(words[at + 1] == args@[at + 1]@);
                    output_file_path = Some(args[at + 1].clone());
                    at = at + 2;
                } else {
                    output_file_path = None;
                    at = at + 1;
                }
            } else {
                let ghost before = input_file_paths.deep_view();
                input_file_paths.push(args[at].clone());
                assert(input_file_paths.deep_view() =~= before.push(words[at as int]));
                at = at + 1;
            }
        }
        if input_file_paths.len() == 0 {
            return Err(MISSING_INPUT);
        }
        match output_file_path {
            Some(output_file_path) => Ok(Arguments { input_file_paths, output_file_path }),
            None => Err(MISSING_OUTPUT),
        }
    }
}

} // verus!
