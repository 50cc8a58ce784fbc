//! The argument lists of the version-control tool's commands.
use vstd::prelude::*;

use crate::text::owned;

verus! {

/// The texts of a list of arguments.
pub open spec fn views(v: Seq<String>) -> Seq<Seq<char>> {
    v.map_values(|s: String| s@)
}

fn push_arg(v: &mut Vec<String>, s: &str)
    ensures
        views(final(v)@) == views(old(v)@).push(s@),
{
    v.push(owned(s));
    assert(views(v@) =~= views(old(v)@).push(s@));
}

/// `-C <repo>`: run the command in the working copy at `repo`.
pub open spec fn in_repo(repo: Seq<char>) -> Seq<Seq<char>> {
    seq!["-C"@, repo]
}

fn in_repo_args(repo: &str) -> (r: Vec<String>)
    ensures
        views(r@) == in_repo(repo@),
{
    let mut v: Vec<String> = Vec::new();
    push_arg(&mut v, "-C");
    push_arg(&mut v, repo);
    assert(views(v@) =~= in_repo(repo@));
    v
}

pub open spec fn clone_blobless_cmd(url: Seq<char>, path: Seq<char>) -> Seq<Seq<char>> {
    seq!["clone"@, "--filter=blob:none"@, url, path]
}

/// A partial clone that leaves file contents to be fetched on demand.
pub fn clone_blobless_args(url: &str, path: &str) -> (r: Vec<String>)
    ensures
        views(r@) == clone_blobless_cmd(url@, path@),
{
    let mut v: Vec<String> = Vec::new();
    push_arg(&mut v, "clone");
    push_arg(&mut v, "--filter=blob:none");
    push_arg(&mut v, url);
    push_arg(&mut v, path);
    assert(views(v@) =~= clone_blobless_cmd(url@, path@));
    v
}

pub open spec fn clone_full_cmd(url: Seq<char>, path: Seq<char>) -> Seq<Seq<char>> {
    seq!["clone"@, url, path]
}

/// A full clone.
pub fn clone_full_args(url: &str, path: &str) -> (r: Vec<String>)
    ensures
        views(r@) == clone_full_cmd(url@, path@),
{
    let mut v: Vec<String> = Vec::new();
    push_arg(&mut v, "clone");
    push_arg(&mut v, url);
    push_arg(&mut v, path);
    assert(views(v@) =~= clone_full_cmd(url@, path@));
    v
}

/// `-C <repo>` followed by one word.
pub open spec fn repo_cmd1(repo: Seq<char>, a: Seq<char>) -> Seq<Seq<char>> {
    in_repo(repo).push(a)
}

pub open spec fn repo_cmd2(repo: Seq<char>, a: Seq<char>, b: Seq<char>) -> Seq<Seq<char>> {
    repo_cmd1(repo, a).push(b)
}

pub open spec fn repo_cmd3(repo: Seq<char>, a: Seq<char>, b: Seq<char>, c: Seq<char>) -> Seq<Seq<char>> {
    repo_cmd2(repo, a, b).push(c)
}

pub open spec fn repo_cmd4(repo: Seq<char>, a: Seq<char>, b: Seq<char>, c: Seq<char>, d: Seq<char>) -> Seq<Seq<char>> {
    repo_cmd3(repo, a, b, c).push(d)
}

/// `git -C <repo> a b`.
pub fn repo_args2(repo: &str, a: &str, b: &str) -> (r: Vec<String>)
    ensures
        views(r@) == repo_cmd2(repo@, a@, b@),
{
    let mut v = in_repo_args(repo);
    push_arg(&mut v, a);
    push_arg(&mut v, b);
    v
}

/// `git -C <repo> a b c`.
pub fn repo_args3(repo: &str, a: &str, b: &str, c: &str) -> (r: Vec<String>)
    ensures
        views(r@) == repo_cmd3(repo@, a@, b@, c@),
{
    let mut v = repo_args2(repo, a, b);
    push_arg(&mut v, c);
    v
}

/// `git -C <repo> a b c d`.
pub fn repo_args4(repo: &str, a: &str, b: &str, c: &str, d: &str) -> (r: Vec<String>)
    ensures
        views(r@) == repo_cmd4(repo@, a@, b@, c@, d@),
{
    let mut v = repo_args3(repo, a, b, c);
    push_arg(&mut v, d);
    v
}

} // verus!
