use crate::error::SetVersionError;
use crate::manifest::{is_member, rewrite_outcome, string_views, update_manifest};
use crate::version::{above, ensure_version_increase, Version};
use vstd::prelude::*;

verus! {

/// A package of the workspace, as the metadata query reports it.
#[derive(Debug)]
pub struct Package {
    pub id: String,
    pub name: String,
    pub version: Version,
    pub manifest_path: String,
}

/// What the command line asks for.
#[derive(Debug)]
pub struct Invocation {
    pub new_version: String,
    pub manifest_path: Option<String>,
}

/// The token under which Cargo runs the tool as a subcommand.
pub open spec fn subcommand_token() -> Seq<char> {
    "set-version"@
}

pub open spec fn path_flag() -> Seq<char> {
    "--manifest-path"@
}

/// The arguments after the program name, without the subcommand token that
/// Cargo passes first.
pub open spec fn arguments(args: Seq<Seq<char>>) -> Seq<Seq<char>> {
    if args.len() > 1 && args[1] == subcommand_token() {
        args.subrange(2, args.len() as int)
    } else {
        args.subrange(1, args.len() as int)
    }
}

/// Splits arguments into positional ones and the manifest path (the last
/// one given wins); `None` where the flag has no value.
pub open spec fn read_arguments(ts: Seq<Seq<char>>) -> Option<(Seq<Seq<char>>, Option<Seq<char>>)>
    decreases ts.len(),
{
    if ts.len() == 0 {
        Some((Seq::empty(), None))
    } else if ts[0] == path_flag() {
        if ts.len() < 2 {
            None
        } else {
            match read_arguments(ts.subrange(2, ts.len() as int)) {
                Some((p, m)) => Some((p, if m is Some { m } else { Some(ts[1]) })),
                None => None,
            }
        }
    } else {
        match read_arguments(ts.subrange(1, ts.len() as int)) {
            Some((p, m)) => Some((seq![ts[0]] + p, m)),
            None => None,
        }
    }
}

fn read_from(args: &Vec<String>, i: usize) -> (r: Option<(Vec<String>, Option<String>)>)
    requires
        i <= args@.len(),
    ensures
        match read_arguments(string_views(args@).subrange(i as int, args@.len() as int)) {
            None => r is None,
            Some((p, m)) => r matches Some((rp, rm)) && string_views(rp@) == p
                && match m { None => rm is None, Some(x) => rm matches Some(y) && y@ == x },
        },
    decreases args@.len() - i,
{
    let ghost ts = string_views(args@).subrange(i as int, args@.len() as int);
    if i == args.len() {
        assert(string_views(Seq::<String>::empty()) =~= Seq::empty());
        return Some((Vec::new(), None));
    }
    let flag = String::from_str("--manifest-path");
    assert(ts[0] == args@[i as int]@);
    if args[i] == flag {
        if i + 1 == args.len() {
            return None;
        }
        assert(ts.subrange(2, ts.len() as int) =~= string_views(args@).subrange(i + 2, args@.len() as int));
        match read_from(args, i + 2) {
            None => None,
            Some((p, m)) => {
                let path = match m {
                    Some(x) => x,
                    None => args[i + 1].clone(),
                };
                Some((p, Some(path)))
            },
        }
    } else {
        assert(ts.subrange(1, ts.len() as int) =~= string_views(args@).subrange(i + 1, args@.len() as int));
        match read_from(args, i + 1) {
            None => None,
            Some((p, m)) => {
                let mut q = p;
                let ghost old_q = q@;
                q.insert(0, args[i].clone());
                assert(string_views(q@) =~= seq![ts[0]] + string_views(old_q));
                Some((q, m))
            },
        }
    }
}

/// Reads the command line: the program name, then optionally Cargo's
/// subcommand token, then the new version and an optional
/// `--manifest-path <path>` in any order. Anything else is a usage error.
pub fn parse_args(args: &Vec<String>) -> (r: Result<Invocation, SetVersionError>)
    requires
        args@.len() >= 1,
    ensures
        match read_arguments(arguments(string_views(args@))) {
            Some((p, m)) => if p.len() == 1 {
                r matches Ok(inv) && inv.new_version@ == p[0]
                    && match m { None => inv.manifest_path is None, Some(x) => inv.manifest_path matches Some(y) && y@ == x }
            } else {
                r matches Err(SetVersionError::Usage { program }) && program@ == args@[0]@
            },
            None => r matches Err(SetVersionError::Usage { program }) && program@ == args@[0]@,
        },
{
    let ghost all = string_views(args@);
    let token = String::from_str("set-version");
    let start: usize = if args.len() > 1 && args[1] == token { 2 } else { 1 };
    assert(arguments(all) =~= all.subrange(start as int, args@.len() as int));
    match read_from(args, start) {
        Some((p, m)) => {
            if p.len() == 1 {
                let new_version = p[0].clone();
                Ok(Invocation { new_version, manifest_path: m })
            } else {
                Err(SetVersionError::Usage { program: args[0].clone() })
            }
        },
        None => Err(SetVersionError::Usage { program: args[0].clone() }),
    }
}

/// The names of the packages whose identifier is among `ids`, in order.
pub open spec fn member_names_of(ps: Seq<Package>, ids: Seq<Seq<char>>) -> Seq<Seq<char>>
    decreases ps.len(),
{
    if ps.len() == 0 {
        Seq::empty()
    } else {
        let rest = member_names_of(ps.drop_last(), ids);
        if ids.contains(ps.last().id@) {
            rest.push(ps.last().name@)
        } else {
            rest
        }
    }
}

/// The names of the workspace members among `packages`: those whose
/// identifier is one of `member_ids`.
pub fn member_names(packages: &Vec<Package>, member_ids: &Vec<String>) -> (r: Vec<String>)
    ensures
        string_views(r@) == member_names_of(packages@, string_views(member_ids@)),
{
    let mut names: Vec<String> = Vec::new();
    let mut i: usize = 0;
    while i < packages.len()
        invariant
            i <= packages@.len(),
            string_views(names@) == member_names_of(packages@.subrange(0, i as int), string_views(member_ids@)),
        decreases packages@.len() - i,
    {
        let ghost before = names@;
        assert(packages@.subrange(0, i as int + 1).drop_last() =~= packages@.subrange(0, i as int));
        if is_member(member_ids, &packages[i].id) {
            names.push(packages[i].name.clone());
            assert(string_views(names@) =~= string_views(before).push(packages@[i as int].name@));
        }
        i += 1;
    }
    assert(packages@.subrange(0, packages@.len() as int) =~= packages@);
    names
}

/// The work for one member: checks that `new` is above the member's
/// `current` version, then rewrites its manifest text. Nothing is rewritten
/// where the check fails.
pub fn rewrite_member(
    new: &Version,
    current: &Version,
    package_name: &str,
    text: &str,
    members: &Vec<String>,
) -> (r: Result<Option<String>, SetVersionError>)
    ensures
        !above(new@, current@) ==> (r matches Err(e) && e matches SetVersionError::NotIncreasing {
            new: n,
            current: c,
            package: p,
        } && n@ == new@.text() && c@ == current@.text() && p@ == package_name@),
        above(new@, current@) ==> rewrite_outcome(text@, string_views(members@), new@.text(), r),
{
    match ensure_version_increase(new, current, package_name) {
        Err(e) => Err(e),
        Ok(()) => {
            let v = new.to_text();
            update_manifest(text, v.as_str(), members)
        },
    }
}

} // verus!
