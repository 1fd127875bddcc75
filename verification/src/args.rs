//! Expansion of argfiles passed as command-line parameters. There are two
//! ways to name one: `@argfile` or `--flagfile PATH`.
//!
//! Caveats:
//!  - `--` and `--flagfile` cannot be values of other options
//!  - `--flagfile=X` is not supported; pass `--flagfile X` instead
//!
//! Resolving a path against the working directory or a cell root, running a
//! python argfile and reading from disk or stdin are the caller's business:
//! the expansion here works against a context that already holds each flag
//! file's lines under the path the arguments use. Expansion is given a
//! nesting-depth budget, so a cyclic inclusion is reported as an error
//! instead of recursing forever.

use vstd::prelude::*;

verus! {

/// Why an expansion failed.
#[derive(Clone, PartialEq, Eq, Debug)]
pub enum ArgExpansionError {
    /// `--flagfile` was the last argument.
    MissingFlagFilePath,
    /// An argument was a bare `@`.
    MissingFlagFilePathInArgfile,
    /// The context holds no flag file under this path.
    MissingFlagFileOnDisk { path: String },
    /// Argfiles were nested deeper than the given budget allows.
    RecursionLimitExceeded { path: String },
}

/// The abstract value of an `ArgExpansionError`, with paths as character
/// sequences.
pub enum ArgExpansionErrorValue {
    MissingFlagFilePath,
    MissingFlagFilePathInArgfile,
    MissingFlagFileOnDisk { path: Seq<char> },
    RecursionLimitExceeded { path: Seq<char> },
}

impl View for ArgExpansionError {
    type V = ArgExpansionErrorValue;

    open spec fn view(&self) -> ArgExpansionErrorValue {
        match self {
            ArgExpansionError::MissingFlagFilePath => ArgExpansionErrorValue::MissingFlagFilePath,
            ArgExpansionError::MissingFlagFilePathInArgfile => ArgExpansionErrorValue::MissingFlagFilePathInArgfile,
            ArgExpansionError::MissingFlagFileOnDisk { path } => ArgExpansionErrorValue::MissingFlagFileOnDisk { path: path@ },
            ArgExpansionError::RecursionLimitExceeded { path } => ArgExpansionErrorValue::RecursionLimitExceeded { path: path@ },
        }
    }
}

/// What the expansion consults and records: the flag files reachable from
/// the invocation, each as the lines reading it would produce, keyed by the
/// path the arguments use; and a trace of the argfiles that were opened, in
/// the order they were opened.
pub struct ArgfileContext {
    pub files: Vec<(String, Vec<String>)>,
    pub trace: Vec<String>,
}

/// The abstract value of the file table.
pub open spec fn spec_files(files: Seq<(String, Vec<String>)>) -> Seq<(Seq<char>, Seq<Seq<char>>)> {
    files.map(|i: int, f: (String, Vec<String>)| (f.0@, f.1.deep_view()))
}

/// First-match lookup in the abstract file table.
pub open spec fn spec_lookup(files: Seq<(Seq<char>, Seq<Seq<char>>)>, path: Seq<char>) -> Option<
    Seq<Seq<char>>,
>
    decreases files.len(),
{
    if files.len() == 0 {
        None
    } else if files.first().0 == path {
        Some(files.first().1)
    } else {
        spec_lookup(files.drop_first(), path)
    }
}

/// The lines of a flag file that expansion keeps: the empty ones are skipped.
pub open spec fn spec_nonempty_lines(lines: Seq<Seq<char>>) -> Seq<Seq<char>>
    decreases lines.len(),
{
    if lines.len() == 0 {
        Seq::empty()
    } else if lines.first().len() == 0 {
        spec_nonempty_lines(lines.drop_first())
    } else {
        seq![lines.first()] + spec_nonempty_lines(lines.drop_first())
    }
}

/// What one expansion leaves behind: the expanded arguments or the first
/// error, and the trace as it stands afterwards.
pub struct Expansion {
    pub result: Result<Seq<Seq<char>>, ArgExpansionErrorValue>,
    pub trace: Seq<Seq<char>>,
}

/// Mirror of argument expansion from position `start`: everything after a
/// bare `--` is passed through untouched; `--flagfile PATH` and `@PATH` are
/// replaced by the expansion of the named file; anything else is kept as it
/// is.
pub open spec fn spec_expand_args(
    args: Seq<Seq<char>>,
    start: int,
    files: Seq<(Seq<char>, Seq<Seq<char>>)>,
    depth: nat,
    trace: Seq<Seq<char>>,
) -> Expansion
    decreases depth, args.len() - start, 1int
        when 0 <= start <= args.len()
{
    if start == args.len() {
        Expansion { result: Ok(Seq::empty()), trace }
    } else if args[start] == "--"@ {
        Expansion { result: Ok(args.skip(start)), trace }
    } else if args[start] == "--flagfile"@ {
        if start + 1 == args.len() {
            Expansion { result: Err(ArgExpansionErrorValue::MissingFlagFilePath), trace }
        } else {
            let sub = spec_expand_file(args[start + 1], files, depth, trace);
            match sub.result {
                Err(e) => Expansion { result: Err(e), trace: sub.trace },
                Ok(expanded) => {
                    let rest = spec_expand_args(args, start + 2, files, depth, sub.trace);
                    match rest.result {
                        Err(e) => Expansion { result: Err(e), trace: rest.trace },
                        Ok(tail) => Expansion { result: Ok(expanded + tail), trace: rest.trace },
                    }
                }
            }
        }
    } else if args[start].len() > 0 && args[start].first() == '@' {
        if args[start].len() == 1 {
            Expansion { result: Err(ArgExpansionErrorValue::MissingFlagFilePathInArgfile), trace }
        } else {
            let path = args[start].skip(1);
            let sub = spec_expand_file(path, files, depth, trace);
            match sub.result {
                Err(e) => Expansion { result: Err(e), trace: sub.trace },
                Ok(expanded) => {
                    let rest = spec_expand_args(args, start + 1, files, depth, sub.trace);
                    match rest.result {
                        Err(e) => Expansion { result: Err(e), trace: rest.trace },
                        Ok(tail) => Expansion { result: Ok(expanded + tail), trace: rest.trace },
                    }
                }
            }
        }
    } else {
        let rest = spec_expand_args(args, start + 1, files, depth, trace);
        match rest.result {
            Err(e) => Expansion { result: Err(e), trace: rest.trace },
            Ok(tail) => Expansion { result: Ok(seq![args[start]] + tail), trace: rest.trace },
        }
    }
}

/// Mirror of resolving and expanding one argfile: look the path up, record
/// it in the trace, and expand the file's non-empty lines one nesting level
/// deeper.
pub open spec fn spec_expand_file(
    path: Seq<char>,
    files: Seq<(Seq<char>, Seq<Seq<char>>)>,
    depth: nat,
    trace: Seq<Seq<char>>,
) -> Expansion
    decreases depth, 0int, 0int
{
    match spec_lookup(files, path) {
        None => Expansion {
            result: Err(ArgExpansionErrorValue::MissingFlagFileOnDisk { path }),
            trace,
        },
        Some(lines) => {
            let opened = trace.push(path);
            if depth == 0 {
                Expansion {
                    result: Err(ArgExpansionErrorValue::RecursionLimitExceeded { path }),
                    trace: opened,
                }
            } else {
                spec_expand_args(spec_nonempty_lines(lines), 0, files, (depth - 1) as nat, opened)
            }
        }
    }
}

impl ArgfileContext {
    /// A context over the given flag files, with nothing opened yet.
    pub fn new(files: Vec<(String, Vec<String>)>) -> (r: ArgfileContext)
        ensures
            r.files == files,
            r.trace@ == Seq::<String>::empty(),
    {
        ArgfileContext { files, trace: Vec::new() }
    }

    /// First-match lookup of a path in the file table.
    fn find_file(&self, path: &String) -> (r: Option<usize>)
        ensures
            match r {
                Some(i) => i < self.files@.len() && spec_lookup(
                    spec_files(self.files@),
                    path@,
                ) == Some(self.files@[i as int].1.deep_view()),
                None => spec_lookup(spec_files(self.files@), path@) is None,
            },
    {
        let ghost table = spec_files(self.files@);
        proof {
            assert(table.skip(0) =~= table);
        }
        let mut i: usize = 0;
        loop
            invariant
                i <= self.files@.len(),
                table == spec_files(self.files@),
                spec_lookup(table, path@) == spec_lookup(
                    table.skip(i as int),
                    path@,
                ),
            decreases self.files@.len() - i,
        {
            if i == self.files.len() {
                proof {
                    assert(table.skip(i as int) =~= Seq::<(Seq<char>, Seq<Seq<char>>)>::empty());
                }
                return None;
            }
            proof {
                assert(table.skip(i as int).first() == table[i as int]);
                assert(table.skip(i as int).drop_first() =~= table.skip(i as int + 1));
            }
            if self.files[i].0.eq(path) {
                return Some(i);
            }
            i = i + 1;
        }
    }
}

/// The lines of a flag file that expansion keeps: the empty ones are skipped.
pub fn expand_argfile_contents(lines: &Vec<String>) -> (r: Vec<String>)
    ensures
        r.deep_view() == spec_nonempty_lines(lines.deep_view()),
{
    let mut out: Vec<String> = Vec::new();
    proof {
        assert(lines.deep_view().skip(0) =~= lines.deep_view());
        assert(out.deep_view() + spec_nonempty_lines(lines.deep_view()) =~= spec_nonempty_lines(
            lines.deep_view(),
        ));
    }
    let mut i: usize = 0;
    loop
        invariant
            i <= lines@.len(),
            spec_nonempty_lines(lines.deep_view()) == out.deep_view() + spec_nonempty_lines(
                lines.deep_view().skip(i as int),
            ),
        decreases lines@.len() - i,
    {
        if i == lines.len() {
            proof {
                assert(lines.deep_view().skip(i as int) =~= Seq::<Seq<char>>::empty());
                assert(out.deep_view() + spec_nonempty_lines(lines.deep_view().skip(i as int))
                    =~= out.deep_view());
            }
            return out;
        }
        let ghost pre = out.deep_view();
        let ghost restv = lines.deep_view().skip(i as int);
        proof {
            assert(restv.first() == lines.deep_view()[i as int]);
            assert(restv.drop_first() =~= lines.deep_view().skip(i as int + 1));
        }
        if !lines[i].as_str().is_empty() {
            out.push(lines[i].clone());
            proof {
                assert(out.deep_view() =~= pre + seq![lines.deep_view()[i as int]]);
                assert(pre + spec_nonempty_lines(restv) =~= out.deep_view()
                    + spec_nonempty_lines(lines.deep_view().skip(i as int + 1)));
            }
        }
        i = i + 1;
    }
}

/// Does this argument name a string equal to the given literal?
fn string_matches(arg: &String, lit: &str) -> (r: bool)
    ensures
        r == (arg@ == lit@),
{
    let other = String::from_str(lit);
    <String as PartialEq>::eq(arg, &other)
}

/// Expand any argfiles among the arguments, reading flag files from the
/// context and recording each file opened. `depth` bounds how deeply
/// argfiles may name further argfiles; a deeper chain (a cyclic inclusion,
/// in particular) is reported as an error.
pub fn expand_argfiles_with_context(
    args: Vec<String>,
    context: &mut ArgfileContext,
    depth: usize,
) -> (r: Result<Vec<String>, ArgExpansionError>)
    ensures
        ({
            let e = spec_expand_args(
                args.deep_view(),
                0,
                spec_files(old(context).files@),
                depth as nat,
                old(context).trace.deep_view(),
            );
            &&& final(context).files == old(context).files
            &&& final(context).trace.deep_view() == e.trace
            &&& match r {
                Ok(v) => e.result == Ok::<_, ArgExpansionErrorValue>(v.deep_view()),
                Err(err) => e.result == Err::<Seq<Seq<char>>, _>(err@),
            }
        }),
{
    expand_args_from(&args, 0, context, depth)
}

/// Expansion from one argument position on; the recursive worker behind
/// `expand_argfiles_with_context`.
fn expand_args_from(
    args: &Vec<String>,
    start: usize,
    context: &mut ArgfileContext,
    depth: usize,
) -> (r: Result<Vec<String>, ArgExpansionError>)
    requires
        start <= args@.len(),
    ensures
        ({
            let e = spec_expand_args(
                args.deep_view(),
                start as int,
                spec_files(old(context).files@),
                depth as nat,
                old(context).trace.deep_view(),
            );
            &&& final(context).files == old(context).files
            &&& final(context).trace.deep_view() == e.trace
            &&& match r {
                Ok(v) => e.result == Ok::<_, ArgExpansionErrorValue>(v.deep_view()),
                Err(err) => e.result == Err::<Seq<Seq<char>>, _>(err@),
            }
        }),
    decreases depth, args@.len() - start, 1int,
{
    if start == args.len() {
        let out: Vec<String> = Vec::new();
        proof {
            assert(out.deep_view() =~= Seq::<Seq<char>>::empty());
        }
        return Ok(out);
    }
    let arg = &args[start];
    proof {
        assert(args.deep_view()[start as int] == arg@);
    }
    if string_matches(arg, "--") {
        let mut out: Vec<String> = Vec::new();
        proof {
            assert(out.deep_view() =~= args.deep_view().subrange(start as int, start as int));
        }
        let mut j: usize = start;
        while j < args.len()
            invariant
                start <= j <= args@.len(),
                out.deep_view() == args.deep_view().subrange(start as int, j as int),
            decreases args@.len() - j,
        {
            let ghost pre = out.deep_view();
            out.push(args[j].clone());
            proof {
                assert(out.deep_view() =~= pre.push(args.deep_view()[j as int]));
                assert(out.deep_view() =~= args.deep_view().subrange(start as int, j as int + 1));
            }
            j = j + 1;
        }
        proof {
            assert(out.deep_view() =~= args.deep_view().skip(start as int));
        }
        return Ok(out);
    }
    if string_matches(arg, "--flagfile") {
        if start + 1 == args.len() {
            return Err(ArgExpansionError::MissingFlagFilePath);
        }
        let flagfile = &args[start + 1];
        let expanded = resolve_and_expand_argfile(flagfile, context, depth);
        match expanded {
            Err(e) => Err(e),
            Ok(mut lines) => {
                let rest = expand_args_from(args, start + 2, context, depth);
                match rest {
                    Err(e) => Err(e),
                    Ok(mut tail) => {
                        let ghost linesv = lines.deep_view();
                        let ghost tailv = tail.deep_view();
                        lines.append(&mut tail);
                        proof {
                            assert(lines.deep_view() =~= linesv + tailv);
                        }
                        Ok(lines)
                    }
                }
            }
        }
    } else {
        // a non-empty argument starting with `@` names an argfile
        let is_argfile = !arg.as_str().is_empty() && arg.as_str().get_char(0) == '@';
        if is_argfile {
            let n = arg.as_str().unicode_len();
            if n == 1 {
                return Err(ArgExpansionError::MissingFlagFilePathInArgfile);
            }
            let flagfile = String::from_str(arg.as_str().substring_char(1, n));
            proof {
                assert(flagfile@ =~= arg@.skip(1));
            }
            let expanded = resolve_and_expand_argfile(&flagfile, context, depth);
            match expanded {
                Err(e) => Err(e),
                Ok(mut lines) => {
                    let rest = expand_args_from(args, start + 1, context, depth);
                    match rest {
                        Err(e) => Err(e),
                        Ok(mut tail) => {
                            let ghost linesv = lines.deep_view();
                            let ghost tailv = tail.deep_view();
                            lines.append(&mut tail);
                            proof {
                                assert(lines.deep_view() =~= linesv + tailv);
                            }
                            Ok(lines)
                        }
                    }
                }
            }
        } else {
            let rest = expand_args_from(args, start + 1, context, depth);
            match rest {
                Err(e) => Err(e),
                Ok(mut tail) => {
                    let mut out: Vec<String> = Vec::new();
                    out.push(arg.clone());
                    let ghost outv = out.deep_view();
                    let ghost tailv = tail.deep_view();
                    out.append(&mut tail);
                    proof {
                        assert(outv =~= seq![args.deep_view()[start as int]]);
                        assert(out.deep_view() =~= outv + tailv);
                    }
                    Ok(out)
                }
            }
        }
    }
}

/// Resolve a path to the flag file the context holds for it, record it in
/// the trace, and expand its lines one nesting level deeper.
pub fn resolve_and_expand_argfile(
    path: &String,
    context: &mut ArgfileContext,
    depth: usize,
) -> (r: Result<Vec<String>, ArgExpansionError>)
    ensures
        ({
            let e = spec_expand_file(
                path@,
                spec_files(old(context).files@),
                depth as nat,
                old(context).trace.deep_view(),
            );
            &&& final(context).files == old(context).files
            &&& final(context).trace.deep_view() == e.trace
            &&& match r {
                Ok(v) => e.result == Ok::<_, ArgExpansionErrorValue>(v.deep_view()),
                Err(err) => e.result == Err::<Seq<Seq<char>>, _>(err@),
            }
        }),
    decreases depth, 0int, 0int,
{
    let found = context.find_file(path);
    match found {
        None => Err(ArgExpansionError::MissingFlagFileOnDisk { path: path.clone() }),
        Some(i) => {
            let ghost pre_trace = context.trace.deep_view();
            let lines = expand_argfile_contents(&context.files[i].1);
            context.trace.push(path.clone());
            proof {
                assert(context.trace.deep_view() =~= pre_trace.push(path@));
            }
            if depth == 0 {
                Err(ArgExpansionError::RecursionLimitExceeded { path: path.clone() })
            } else {
                expand_args_from(&lines, 0, context, depth - 1)
            }
        }
    }
}

} // verus!
