//! Package tags and the paths derived from them.
use vstd::prelude::*;

use crate::error::DootError;
use crate::text::{contains_char, has_char};

verus! {

/// The tag used when the command names none.
pub const DEFAULT_TAG: &'static str = "default";

/// The extension that marks a manifest file.
pub const MANIFEST_EXTENSION: &'static str = ".toml";

/// The manifest written into a new package.
pub const DEFAULT_MANIFEST: &'static str = "[doot]\nname = \"example\"\nauthors = [\"your name\"]\nversion = \"0.0.1\"\ntopic = \"My example config for example program!\"\n\n[config]\ntarget = [\"~/.config/my_config/config.txt\"]\nsource = [\"config.txt\"]\nask = true\ndebug = true\n";

/// A tag names a directory, so it must not look like a file name.
pub open spec fn valid_tag(tag: Seq<char>) -> bool {
    !has_char(tag, '.')
}

/// The package directory of `tag`, under the current directory.
pub open spec fn package_dir_of(tag: Seq<char>) -> Seq<char> {
    seq!['.', '/'] + tag
}

/// The manifest that a new package of `tag` starts with.
pub open spec fn new_manifest_of(tag: Seq<char>) -> Seq<char> {
    package_dir_of(tag) + seq!['/'] + tag + MANIFEST_EXTENSION@
}

/// Accepts a tag without a `.`; any other is `InvalidTag`, naming it.
pub fn check_tag(tag: &str) -> (r: Result<(), DootError>)
    ensures
        r is Ok <==> valid_tag(tag@),
        r matches Err(e) ==> (e matches DootError::InvalidTag(t) && t@ == tag@),
{
    if contains_char(tag, '.') {
        Err(DootError::InvalidTag(String::from_str(tag)))
    } else {
        Ok(())
    }
}

/// `./{tag}`: the directory that holds the package.
pub fn package_dir(tag: &str) -> (r: String)
    ensures
        r@ == package_dir_of(tag@),
{
    let mut dir = String::from_str("./");
    proof {
        reveal_strlit("./");
    }
    assert("./"@ =~= seq!['.', '/']);
    dir.append(tag);
    dir
}

/// `./{tag}/{tag}.toml`: the manifest file that scaffolding a package of
/// `tag` creates, inside its package directory. A tag with a `.` is refused.
pub fn new_manifest_path(tag: &str) -> (r: Result<String, DootError>)
    ensures
        r is Ok <==> valid_tag(tag@),
        r matches Ok(p) ==> p@ == new_manifest_of(tag@),
        r matches Err(e) ==> (e matches DootError::InvalidTag(t) && t@ == tag@),
{
    check_tag(tag)?;
    let mut path = package_dir(tag);
    path.append("/");
    path.append(tag);
    path.append(MANIFEST_EXTENSION);
    proof {
        reveal_strlit("/");
    }
    assert("/"@ =~= seq!['/']);
    Ok(path)
}

/// `{cwd}/{tag}`: the package directory as an absolute path, against which
/// a manifest's sources and targets are resolved.
pub fn package_root(cwd: &str, tag: &str) -> (r: String)
    ensures
        r@ == cwd@ + seq!['/'] + tag@,
{
    let mut root = String::from_str(cwd);
    root.append("/");
    proof {
        reveal_strlit("/");
    }
    assert("/"@ =~= seq!['/']);
    root.append(tag);
    root
}

/// The directory that removing `tag` deletes: its package directory once the
/// user has confirmed, nothing otherwise.
pub fn removal_target(tag: &str, confirmed: bool) -> (r: Option<String>)
    ensures
        confirmed <==> r is Some,
        r matches Some(d) ==> d@ == package_dir_of(tag@),
{
    if confirmed {
        Some(package_dir(tag))
    } else {
        None
    }
}

} // verus!
