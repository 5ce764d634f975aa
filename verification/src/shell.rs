//! Command-line handling: recognized flags, the scan that collects each
//! flag's value run, and the decision between showing help and building.

use vstd::prelude::*;

use crate::text::{parse_i32, parse_i32_of, trim, trim_of};

verus! {

/// The help flag.
pub open spec fn flag_help() -> Seq<char> {
    "--help"@
}

/// The flag that asks for a build without a subsequent run.
pub open spec fn flag_build_only() -> Seq<char> {
    "--build-only"@
}

/// The flag that introduces the port numbers to expose.
pub open spec fn flag_exposed_ports() -> Seq<char> {
    "--exposed-ports"@
}

/// The flag that introduces the files to copy into the image.
pub open spec fn flag_add_files() -> Seq<char> {
    "--add-files"@
}

/// Whether some token of `args` is exactly `tok`.
pub open spec fn contains_token(args: Seq<Seq<char>>, tok: Seq<char>) -> bool {
    exists|i: int| 0 <= i < args.len() && args[i] == tok
}

/// Whether a token looks like a flag: it begins with the flag-prefix marker.
pub open spec fn looks_like_flag(t: Seq<char>) -> bool {
    t.len() >= 2 && t[0] == '-' && t[1] == '-'
}

/// The longest prefix of `tokens` in which no token looks like a flag.
pub open spec fn take_values(tokens: Seq<Seq<char>>) -> Seq<Seq<char>>
    decreases tokens.len(),
{
    if tokens.len() == 0 || looks_like_flag(tokens.first()) {
        Seq::empty()
    } else {
        seq![tokens.first()] + take_values(tokens.drop_first())
    }
}

/// The value run of `flag` in `args`: the tokens after the first occurrence
/// of `flag`, up to the next flag-looking token or the end of the list.
pub open spec fn value_run(args: Seq<Seq<char>>, flag: Seq<char>) -> Seq<Seq<char>>
    decreases args.len(),
{
    if args.len() == 0 {
        Seq::empty()
    } else if args.first() == flag {
        take_values(args.drop_first())
    } else {
        value_run(args.drop_first(), flag)
    }
}

/// The port numbers denoted by `tokens`, in order, silently dropping tokens
/// that do not parse as a base-10 `i32` after trimming.
pub open spec fn parsed_ports(tokens: Seq<Seq<char>>) -> Seq<i32>
    decreases tokens.len(),
{
    if tokens.len() == 0 {
        Seq::empty()
    } else {
        match parse_i32_of(trim_of(tokens.first())) {
            Some(p) => seq![p] + parsed_ports(tokens.drop_first()),
            None => parsed_ports(tokens.drop_first()),
        }
    }
}

/// Each token of `tokens`, trimmed, in order.
pub open spec fn trimmed_tokens(tokens: Seq<Seq<char>>) -> Seq<Seq<char>>
    decreases tokens.len(),
{
    if tokens.len() == 0 {
        Seq::empty()
    } else {
        seq![trim_of(tokens.first())] + trimmed_tokens(tokens.drop_first())
    }
}

/// The exposed ports that `args` asks for.
pub open spec fn exposed_ports_of(args: Seq<Seq<char>>) -> Seq<i32> {
    parsed_ports(value_run(args, flag_exposed_ports()))
}

/// The files to add that `args` asks for.
pub open spec fn add_files_of(args: Seq<Seq<char>>) -> Seq<Seq<char>> {
    trimmed_tokens(value_run(args, flag_add_files()))
}

/// Compares two strings by their characters.
fn string_eq(a: &String, b: &String) -> (r: bool)
    ensures
        r == (a@ == b@),
{
    a.eq(b)
}

/// Whether some token of `args` is exactly `tok`.
fn contains_string(args: &[String], tok: &String) -> (r: bool)
    ensures
        r == contains_token(args.deep_view(), tok@),
{
    let ghost dv = args.deep_view();
    let n = args.len();
    let mut i: usize = 0;
    while i < n
        invariant
            i <= n,
            n == dv.len(),
            dv == args.deep_view(),
            forall|k: int| 0 <= k < i ==> dv[k] != tok@,
        decreases n - i,
    {
        proof {
            assert(dv[i as int] == args@[i as int]@);
        }
        if string_eq(&args[i], tok) {
            proof {
                assert(contains_token(dv, tok@));
            }
            return true;
        }
        i = i + 1;
    }
    false
}

/// Whether `s` looks like a flag.
fn is_flag_like(s: &String) -> (r: bool)
    ensures
        r == looks_like_flag(s@),
{
    let n = s.as_str().unicode_len();
    if n < 2 {
        false
    } else {
        s.as_str().get_char(0) == '-' && s.as_str().get_char(1) == '-'
    }
}

/// Collects the value run of `flag` in `args`.
fn collect_flag_values(args: &[String], flag: &String) -> (r: Vec<String>)
    ensures
        r.deep_view() == value_run(args.deep_view(), flag@),
{
    let ghost dv = args.deep_view();
    let n = args.len();
    proof {
        assert(dv.subrange(0, n as int) =~= dv);
    }
    let mut i: usize = 0;
    while i < n && !string_eq(&args[i], flag)
        invariant
            i <= n,
            n == dv.len(),
            dv == args.deep_view(),
            value_run(dv, flag@) == value_run(dv.subrange(i as int, n as int), flag@),
        decreases n - i,
    {
        proof {
            assert(dv[i as int] == args@[i as int]@);
            assert(dv.subrange(i as int, n as int).first() == dv[i as int]);
            assert(dv.subrange(i as int, n as int).drop_first() =~= dv.subrange(i + 1, n as int));
        }
        i = i + 1;
    }
    let mut out: Vec<String> = Vec::new();
    if i == n {
        proof {
            assert(dv.subrange(n as int, n as int) =~= Seq::<Seq<char>>::empty());
            assert(out.deep_view() =~= Seq::<Seq<char>>::empty());
        }
        return out;
    }
    proof {
        assert(dv[i as int] == args@[i as int]@);
        assert(dv.subrange(i as int, n as int).first() == dv[i as int]);
        assert(dv.subrange(i as int, n as int).drop_first() =~= dv.subrange(i + 1, n as int));
        assert(value_run(dv, flag@) == take_values(dv.subrange(i + 1, n as int)));
    }
    let mut j: usize = i + 1;
    while j < n && !is_flag_like(&args[j])
        invariant
            i < n,
            i + 1 <= j <= n,
            n == dv.len(),
            dv == args.deep_view(),
            value_run(dv, flag@) == out.deep_view() + take_values(
                dv.subrange(j as int, n as int),
            ),
        decreases n - j,
    {
        let ghost pre = out.deep_view();
        let ghost t = dv.subrange(j as int, n as int);
        proof {
            assert(dv[j as int] == args@[j as int]@);
            assert(t.first() == dv[j as int]);
            assert(t.drop_first() =~= dv.subrange(j + 1, n as int));
        }
        out.push(args[j].clone());
        proof {
            assert(out.deep_view() =~= pre + seq![dv[j as int]]);
            assert(out.deep_view() + take_values(dv.subrange(j + 1, n as int)) =~= pre
                + take_values(t));
        }
        j = j + 1;
    }
    proof {
        if j == n {
            assert(dv.subrange(n as int, n as int) =~= Seq::<Seq<char>>::empty());
        }
        assert(take_values(dv.subrange(j as int, n as int)) == Seq::<Seq<char>>::empty());
        assert(out.deep_view() + Seq::<Seq<char>>::empty() =~= out.deep_view());
    }
    out
}

/// Whether the build-only flag appears among `args`.
pub fn check_build_only(args: &[String]) -> (r: bool)
    ensures
        r == contains_token(args.deep_view(), flag_build_only()),
{
    let flag = String::from_str("--build-only");
    contains_string(args, &flag)
}

/// The ports asked for by the exposed-ports flag of `args`: the tokens of its
/// value run that parse as base-10 integers, in order.
pub fn check_exposed_ports(args: &[String]) -> (r: Vec<i32>)
    ensures
        r@ == exposed_ports_of(args.deep_view()),
{
    let flag = String::from_str("--exposed-ports");
    let vals = collect_flag_values(args, &flag);
    let ghost vv = vals.deep_view();
    let m = vals.len();
    proof {
        assert(vv.subrange(0, m as int) =~= vv);
    }
    let mut out: Vec<i32> = Vec::new();
    let mut k: usize = 0;
    while k < m
        invariant
            k <= m,
            m == vv.len(),
            vals.deep_view() == vv,
            vals@.len() == m,
            parsed_ports(vv) == out@ + parsed_ports(vv.subrange(k as int, m as int)),
        decreases m - k,
    {
        let ghost pre = out@;
        let ghost t = vv.subrange(k as int, m as int);
        proof {
            assert(vv[k as int] == vals@[k as int]@);
            assert(t.first() == vv[k as int]);
            assert(t.drop_first() =~= vv.subrange(k + 1, m as int));
        }
        let trimmed = trim(vals[k].as_str());
        match parse_i32(trimmed) {
            Some(p) => {
                out.push(p);
                proof {
                    assert(out@ =~= pre + seq![p]);
                    assert(out@ + parsed_ports(vv.subrange(k + 1, m as int)) =~= pre
                        + parsed_ports(t));
                }
            },
            None => {
                proof {
                    assert(out@ + parsed_ports(vv.subrange(k + 1, m as int)) =~= pre
                        + parsed_ports(t));
                }
            },
        }
        k = k + 1;
    }
    proof {
        assert(vv.subrange(m as int, m as int) =~= Seq::<Seq<char>>::empty());
        assert(out@ + Seq::<i32>::empty() =~= out@);
    }
    out
}

/// The files asked for by the add-files flag of `args`: the tokens of its
/// value run, trimmed, in order.
pub fn check_add_files(args: &[String]) -> (r: Vec<String>)
    ensures
        r.deep_view() == add_files_of(args.deep_view()),
{
    let flag = String::from_str("--add-files");
    let vals = collect_flag_values(args, &flag);
    let ghost vv = vals.deep_view();
    let m = vals.len();
    proof {
        assert(vv.subrange(0, m as int) =~= vv);
    }
    let mut out: Vec<String> = Vec::new();
    let mut k: usize = 0;
    while k < m
        invariant
            k <= m,
            m == vv.len(),
            vals.deep_view() == vv,
            vals@.len() == m,
            trimmed_tokens(vv) == out.deep_view() + trimmed_tokens(
                vv.subrange(k as int, m as int),
            ),
        decreases m - k,
    {
        let ghost pre = out.deep_view();
        let ghost t = vv.subrange(k as int, m as int);
        proof {
            assert(vv[k as int] == vals@[k as int]@);
            assert(t.first() == vv[k as int]);
            assert(t.drop_first() =~= vv.subrange(k + 1, m as int));
        }
        let trimmed = String::from_str(trim(vals[k].as_str()));
        out.push(trimmed);
        proof {
            assert(out.deep_view() =~= pre + seq![trim_of(vv[k as int])]);
            assert(out.deep_view() + trimmed_tokens(vv.subrange(k + 1, m as int)) =~= pre
                + trimmed_tokens(t));
        }
        k = k + 1;
    }
    proof {
        assert(vv.subrange(m as int, m as int) =~= Seq::<Seq<char>>::empty());
        assert(out.deep_view() + Seq::<Seq<char>>::empty() =~= out.deep_view());
    }
    out
}

/// A structured build request: the parsed command line.
pub struct BuildRequest {
    /// Build the image without running it afterwards.
    pub build_only: bool,
    /// Ports to expose, in command-line order.
    pub exposed_ports: Vec<i32>,
    /// Files to copy into the image, in command-line order.
    pub add_files: Vec<String>,
}

/// What the command line asks for.
pub enum CliAction {
    /// Print the help message.
    ShowHelp,
    /// Build (and possibly run) with the given request.
    Build(BuildRequest),
}

/// Whether `args` (the full token list, program name first) asks for help:
/// no further token is given, or the help flag appears anywhere.
pub open spec fn wants_help(args: Seq<Seq<char>>) -> bool {
    args.len() <= 1 || contains_token(args, flag_help())
}

/// Decides what the command line `args` (program name first) asks for, and
/// parses the build request from the tokens after the program name.
pub fn process_args(args: &Vec<String>) -> (r: CliAction)
    requires
        args@.len() >= 1,
    ensures
        r is ShowHelp <==> wants_help(args.deep_view()),
        r matches CliAction::Build(req) ==> {
            let rest = args.deep_view().drop_first();
            &&& req.build_only == contains_token(rest, flag_build_only())
            &&& req.exposed_ports@ == exposed_ports_of(rest)
            &&& req.add_files.deep_view() == add_files_of(rest)
        },
{
    let help = String::from_str("--help");
    let full = args.as_slice();
    proof {
        assert(full.deep_view() =~= args.deep_view());
    }
    if args.len() > 1 && !contains_string(full, &help) {
        let rest = tail_of(args);
        let rest_slice = rest.as_slice();
        proof {
            assert(rest_slice.deep_view() =~= rest.deep_view());
        }
        let build_only = check_build_only(rest_slice);
        let exposed_ports = check_exposed_ports(rest_slice);
        let add_files = check_add_files(rest_slice);
        CliAction::Build(BuildRequest { build_only, exposed_ports, add_files })
    } else {
        CliAction::ShowHelp
    }
}

/// Clones every token but the first.
fn tail_of(args: &Vec<String>) -> (r: Vec<String>)
    requires
        args@.len() >= 1,
    ensures
        r.deep_view() == args.deep_view().drop_first(),
{
    let ghost dv = args.deep_view();
    let n = args.len();
    let mut out: Vec<String> = Vec::new();
    let mut i: usize = 1;
    while i < n
        invariant
            1 <= i <= n,
            n == dv.len(),
            dv == args.deep_view(),
            args@.len() == n,
            out.deep_view() =~= dv.subrange(1, i as int),
        decreases n - i,
    {
        let ghost pre = out.deep_view();
        proof {
            assert(dv[i as int] == args@[i as int]@);
        }
        out.push(args[i].clone());
        proof {
            assert(out.deep_view() =~= pre + seq![dv[i as int]]);
            assert(out.deep_view() =~= dv.subrange(1, i + 1));
        }
        i = i + 1;
    }
    proof {
        assert(dv.subrange(1, n as int) =~= dv.drop_first());
    }
    out
}

/// Token lists that name none of the recognized value flags parse to the
/// default request: the exposed ports and the added files are both empty
/// (and, by the contracts of [`check_build_only`] and [`process_args`], a
/// list without the build-only flag yields a request that is not build-only).
pub proof fn lemma_unrecognized_tokens_parse_to_defaults(args: Seq<Seq<char>>)
    requires
        !contains_token(args, flag_exposed_ports()),
        !contains_token(args, flag_add_files()),
    ensures
        exposed_ports_of(args) == Seq::<i32>::empty(),
        add_files_of(args) == Seq::<Seq<char>>::empty(),
{
    assert forall|i: int| 0 <= i < args.len() implies args[i] != flag_exposed_ports() by {
        if args[i] == flag_exposed_ports() {
            assert(contains_token(args, flag_exposed_ports()));
        }
    }
    assert forall|i: int| 0 <= i < args.len() implies args[i] != flag_add_files() by {
        if args[i] == flag_add_files() {
            assert(contains_token(args, flag_add_files()));
        }
    }
    lemma_value_run_absent(args, flag_exposed_ports());
    lemma_value_run_absent(args, flag_add_files());
}

/// A flag that occurs nowhere in `args` has an empty value run.
proof fn lemma_value_run_absent(args: Seq<Seq<char>>, flag: Seq<char>)
    requires
        forall|i: int| 0 <= i < args.len() ==> args[i] != flag,
    ensures
        value_run(args, flag) == Seq::<Seq<char>>::empty(),
    decreases args.len(),
{
    if args.len() > 0 {
        assert(args.first() == args[0]);
        assert(forall|i: int| 0 <= i < args.drop_first().len() ==> args.drop_first()[i] == args[
            i + 1
        ]);
        lemma_value_run_absent(args.drop_first(), flag);
    }
}

/// The help message for a program invoked under the name `bin`.
pub open spec fn help_text_spec(bin: Seq<char>) -> Seq<char> {
    "Rockerize: dockerize your rust application.\n\n* usage: run this command in your rust application's root directory.\n\n    $ "@
        + bin
        + " [OPTIONS]\n\n* available options:\n\n--help: show this help message.\n\n    $ "@ + bin
        + " --help\n\n--build-only: do not run the image, just build it.\n\n    $ "@ + bin
        + " --build-only\n\n--exposed-ports: list port numbers that need to be exposed.\n\n    $ "@
        + bin + " --exposed-ports 22\n    $ "@ + bin
        + " --exposed-ports 80 443 8080\n\n--add-files: copy local files to the image.\n\n    $ "@
        + bin + " --add-files ./config.json\n    $ "@ + bin
        + " --add-files logo.jpg index.html\n\n"@
}

/// Renders the help message for a program invoked under the name `bin`.
pub fn help_text(bin: &String) -> (r: String)
    ensures
        r@ == help_text_spec(bin@),
{
    let mut s = String::from_str(
        "Rockerize: dockerize your rust application.\n\n* usage: run this command in your rust application's root directory.\n\n    $ ",
    );
    s.append(bin.as_str());
    s.append(" [OPTIONS]\n\n* available options:\n\n--help: show this help message.\n\n    $ ");
    s.append(bin.as_str());
    s.append(" --help\n\n--build-only: do not run the image, just build it.\n\n    $ ");
    s.append(bin.as_str());
    s.append(" --build-only\n\n--exposed-ports: list port numbers that need to be exposed.\n\n    $ ");
    s.append(bin.as_str());
    s.append(" --exposed-ports 22\n    $ ");
    s.append(bin.as_str());
    s.append(" --exposed-ports 80 443 8080\n\n--add-files: copy local files to the image.\n\n    $ ");
    s.append(bin.as_str());
    s.append(" --add-files ./config.json\n    $ ");
    s.append(bin.as_str());
    s.append(" --add-files logo.jpg index.html\n\n");
    proof {
        assert(s@ =~= help_text_spec(bin@));
    }
    s
}

} // verus!
