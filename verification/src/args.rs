//! Command-line arguments and their one-shot parser.
//!
//! The grammar, over the tokens after the program name: the flags
//! `-v`/`--verbose`, `-k`/`--keep` and `-c`/`--cache`; the repeatable
//! option `-e VALUE`/`--env VALUE`/`--env=VALUE`; then two positional
//! arguments, the action and the container name.  Every token after the
//! second positional is collected verbatim as the command to execute.  Any
//! other token that looks like a flag is rejected.

use vstd::prelude::*;
use vstd::string::StringExecFns;
use crate::container::InvocationContext;
use crate::text::{empty_strings, push_string, has_prefix, spec_has_prefix, str_eq};

verus! {

/// Command arguments.
#[derive(Debug, PartialEq)]
pub struct Args {
    /// Prints debugging information.
    pub verbose: bool,
    /// Keep the container after it exits.
    pub keep: bool,
    /// Environment overrides for the run action.
    pub env: Vec<String>,
    /// Use the layer cache when building.
    pub cache: bool,
    /// The action: run, build, args.
    pub action: String,
    /// The container name, the base name of its configuration file.
    pub container_name: String,
    /// The command to execute inside the container, if any.
    pub execute: Option<ExecuteArgs>,
}

/// Optional trailing arguments when running a container.
#[derive(Debug, PartialEq)]
pub enum ExecuteArgs {
    Other(Vec<String>),
}

/// Why a command line was rejected.
#[derive(Clone, Copy, Debug, PartialEq, Eq, Structural)]
pub enum CliError {
    /// A token that looks like a flag but is none of the known ones.
    UnknownFlag,
    /// The command line ends right after `-e` or `--env`.
    MissingEnvValue,
    /// Fewer than two positional arguments.
    MissingPositionals,
}

/// The parser state after some prefix of the token list.
pub struct CliState {
    pub verbose: bool,
    pub keep: bool,
    pub cache: bool,
    pub env: Seq<Seq<char>>,
    pub pos: Seq<Seq<char>>,
    pub extra: Seq<Seq<char>>,
    pub pending_env: bool,
    pub err: Option<CliError>,
}

/// The state before any token.
pub open spec fn cli_init() -> CliState {
    CliState {
        verbose: false,
        keep: false,
        cache: false,
        env: Seq::empty(),
        pos: Seq::empty(),
        extra: Seq::empty(),
        pending_env: false,
        err: None,
    }
}

/// A token that looks like a flag: at least two characters, starting `-`.
pub open spec fn spec_is_flag(t: Seq<char>) -> bool {
    t.len() >= 2 && t[0] == '-'
}

/// One parsing step.  An error, once reached, absorbs everything after it.
pub open spec fn cli_step(st: CliState, t: Seq<char>) -> CliState {
    if st.err is Some {
        st
    } else if st.pending_env {
        CliState { env: st.env.push(t), pending_env: false, ..st }
    } else if st.pos.len() >= 2 {
        CliState { extra: st.extra.push(t), ..st }
    } else if t == "-v"@ || t == "--verbose"@ {
        CliState { verbose: true, ..st }
    } else if t == "-k"@ || t == "--keep"@ {
        CliState { keep: true, ..st }
    } else if t == "-c"@ || t == "--cache"@ {
        CliState { cache: true, ..st }
    } else if t == "-e"@ || t == "--env"@ {
        CliState { pending_env: true, ..st }
    } else if spec_has_prefix(t, "--env="@) {
        CliState { env: st.env.push(t.skip("--env="@.len() as int)), ..st }
    } else if spec_is_flag(t) {
        CliState { err: Some(CliError::UnknownFlag), ..st }
    } else {
        CliState { pos: st.pos.push(t), ..st }
    }
}

/// The parser state after the whole token list.
pub open spec fn cli_run(toks: Seq<Seq<char>>) -> CliState
    decreases toks.len(),
{
    if toks.len() == 0 {
        cli_init()
    } else {
        cli_step(cli_run(toks.drop_last()), toks.last())
    }
}

/// The error reported for a final state that yields no arguments.
pub open spec fn spec_cli_error(st: CliState) -> CliError {
    match st.err {
        Some(e) => e,
        None => if st.pending_env {
            CliError::MissingEnvValue
        } else {
            CliError::MissingPositionals
        },
    }
}

impl Args {
    /// Parses the command-line tokens (after the program name).  The result
    /// is pinned by the state `cli_run` reaches on the token list: the
    /// parse succeeds if and only if no unknown flag was seen, no `-e` is
    /// left without a value and both positionals arrived, and then every
    /// field of the returned arguments matches that state.
    pub fn cli_args(argv: &Vec<String>) -> (r: Result<Args, CliError>)
        ensures
            ({
                let st = cli_run(argv.deep_view());
                match r {
                    Ok(a) => {
                        &&& st.err is None
                        &&& !st.pending_env
                        &&& st.pos.len() == 2
                        &&& a.verbose == st.verbose
                        &&& a.keep == st.keep
                        &&& a.cache == st.cache
                        &&& a.env.deep_view() == st.env
                        &&& a.action@ == st.pos[0]
                        &&& a.container_name@ == st.pos[1]
                        &&& match a.execute {
                            Option::None => st.extra.len() == 0,
                            Option::Some(ExecuteArgs::Other(v)) => st.extra.len() > 0
                                && v.deep_view() == st.extra,
                        }
                    },
                    Err(e) => {
                        &&& (st.err is Some || st.pending_env || st.pos.len() < 2)
                        &&& e == spec_cli_error(st)
                    },
                }
            }),
    {
        let ghost toks = argv.deep_view();
        let mut verbose = false;
        let mut keep = false;
        let mut cache = false;
        let mut env = empty_strings();
        let mut pos = empty_strings();
        let mut extra = empty_strings();
        let mut pending_env = false;
        let mut err: Option<CliError> = None;

        let mut i: usize = 0;
        proof {
            assert(toks.take(0) =~= Seq::<Seq<char>>::empty());
        }
        while i < argv.len()
            invariant
                i <= argv.len(),
                argv@.len() == toks.len(),
                toks == argv.deep_view(),
                ({
                    let st = cli_run(toks.take(i as int));
                    &&& verbose == st.verbose
                    &&& keep == st.keep
                    &&& cache == st.cache
                    &&& env.deep_view() == st.env
                    &&& pos.deep_view() == st.pos
                    &&& extra.deep_view() == st.extra
                    &&& pending_env == st.pending_env
                    &&& err == st.err
                    &&& st.pos.len() <= 2
                }),
            decreases argv.len() - i,
        {
            let t = &argv[i];
            proof {
                assert(t@ == toks[i as int]);
                assert(toks.take(i as int + 1).drop_last() =~= toks.take(i as int));
                assert(toks.take(i as int + 1).last() == toks[i as int]);
            }
            if err.is_some() {
            } else if pending_env {
                push_string(&mut env, t.clone());
                pending_env = false;
            } else if pos.len() >= 2 {
                push_string(&mut extra, t.clone());
            } else if str_eq(t.as_str(), "-v") || str_eq(t.as_str(), "--verbose") {
                verbose = true;
            } else if str_eq(t.as_str(), "-k") || str_eq(t.as_str(), "--keep") {
                keep = true;
            } else if str_eq(t.as_str(), "-c") || str_eq(t.as_str(), "--cache") {
                cache = true;
            } else if str_eq(t.as_str(), "-e") || str_eq(t.as_str(), "--env") {
                pending_env = true;
            } else if has_prefix(t.as_str(), "--env=") {
                let start = "--env=".unicode_len();
                let value = t.as_str().substring_char(start, t.as_str().unicode_len());
                push_string(&mut env, String::from_str(value));
            } else if t.as_str().unicode_len() >= 2 && t.as_str().get_char(0) == '-' {
                err = Some(CliError::UnknownFlag);
            } else {
                push_string(&mut pos, t.clone());
            }
            i += 1;
        }
        proof {
            assert(toks.take(argv@.len() as int) =~= toks);
        }

        if let Some(e) = err {
            return Err(e);
        }
        if pending_env {
            return Err(CliError::MissingEnvValue);
        }
        if pos.len() < 2 {
            return Err(CliError::MissingPositionals);
        }
        let action = pos[0].clone();
        let container_name = pos[1].clone();
        proof {
            assert(action@ == pos.deep_view()[0]);
            assert(container_name@ == pos.deep_view()[1]);
        }
        let execute = if extra.len() == 0 {
            None
        } else {
            Some(ExecuteArgs::Other(extra))
        };
        Ok(Args { verbose, keep, env, cache, action, container_name, execute })
    }

    /// The per-invocation context these arguments describe.
    pub fn to_context(self) -> (ctx: InvocationContext)
        ensures
            ctx.keep_after_exit == self.keep,
            ctx.env_overrides == self.env,
            ctx.use_build_cache == self.cache,
            ctx.extra_trailing_args.deep_view() == match self.execute {
                Option::None => Seq::<Seq<char>>::empty(),
                Option::Some(ExecuteArgs::Other(v)) => v.deep_view(),
            },
    {
        let extra_trailing_args = match self.execute {
            None => empty_strings(),
            Some(ExecuteArgs::Other(v)) => v,
        };
        InvocationContext {
            keep_after_exit: self.keep,
            env_overrides: self.env,
            use_build_cache: self.cache,
            extra_trailing_args,
        }
    }
}

} // verus!
