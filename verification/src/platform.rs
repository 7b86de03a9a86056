//! The well-known directories of the machine, and the rule that keeps a
//! scan out of some of them.

use crate::entry::{compared_name, Entry};
use vstd::prelude::*;
use vstd::string::StringExecFns;

verus! {

/// The well-known directories of a machine, made once from the name of the
/// current user and only read afterwards.
#[derive(Clone, Debug)]
pub struct Platform {
    pub fs_dir_sep: char,
    pub sys_dir: String,
    pub user_dir: String,
    pub app_data: String,
    pub tmp_dir: String,
}

/// The home directory of the user `user`.
pub open spec fn user_dir_of(user: Seq<char>) -> Seq<char> {
    "C:\\users\\"@ + user
}

/// The directory of application data of the user `user`.
pub open spec fn app_data_of(user: Seq<char>) -> Seq<char> {
    user_dir_of(user) + "\\appdata"@
}

/// The directory of temporary files of the user `user`.
pub open spec fn tmp_dir_of(user: Seq<char>) -> Seq<char> {
    app_data_of(user) + "\\local\\temp"@
}

/// The root of the drive with the letter `letter`: the letter, a colon and
/// the separator `sep`.
pub open spec fn drive_root_of(letter: char, sep: char) -> Seq<char> {
    seq![letter, ':', sep]
}

/// Whether an entry with the given last component is kept out of a scan:
/// where that component is, as a whole, the system directory or the
/// directory of temporary files.
///
/// The comparison is with the last component alone, not with the path. A
/// component holds no separator, and both directories are whole paths, so
/// on a real tree nothing is ever kept out:
/// `multi_segment_roots_never_match` states this. Keeping out what lies
/// under those directories would take a comparison of whole paths.
pub open spec fn blacklisted(name: Option<Seq<char>>, platform: Platform) -> bool {
    match name {
        Some(n) => n == platform.sys_dir@ || n == platform.tmp_dir@,
        None => false,
    }
}

impl Platform {
    /// The directories of the machine on which `user` is the current user.
    pub fn for_user(user: &str) -> (platform: Platform)
        ensures
            platform.fs_dir_sep == '\\',
            platform.sys_dir@ == "C:\\Windows"@,
            platform.user_dir@ == user_dir_of(user@),
            platform.app_data@ == app_data_of(user@),
            platform.tmp_dir@ == tmp_dir_of(user@),
    {
        let user_dir = String::from_str("C:\\users\\").concat(user);
        let app_data = user_dir.clone().concat("\\appdata");
        let tmp_dir = app_data.clone().concat("\\local\\temp");
        Platform {
            fs_dir_sep: '\\',
            sys_dir: String::from_str("C:\\Windows"),
            user_dir,
            app_data,
            tmp_dir,
        }
    }
}

impl Platform {
    /// The path at which the scan of the drive `letter` starts.
    pub fn drive_root(&self, letter: char) -> (root: String)
        ensures
            root@ == drive_root_of(letter, self.fs_dir_sep),
    {
        let mut root = String::new();
        root.push(letter);
        root.push(':');
        root.push(self.fs_dir_sep);
        proof {
            assert(root@ =~= drive_root_of(letter, self.fs_dir_sep));
        }
        root
    }
}

impl Entry {
    /// Whether the entry is kept out of a scan, together with all below it.
    /// An entry without a last component, or with one that is not Unicode
    /// throughout, never is.
    pub fn is_blacklisted(&self, platform: &Platform) -> (out: bool)
        ensures
            out == blacklisted(compared_name(*self), *platform),
    {
        if !self.name_is_unicode {
            return false;
        }
        match &self.name {
            Some(n) => *n == platform.sys_dir || *n == platform.tmp_dir,
            None => false,
        }
    }

    /// Whether a scan visits the entry.
    pub fn is_allowed(&self, platform: &Platform) -> (out: bool)
        ensures
            out == !blacklisted(compared_name(*self), *platform),
    {
        !self.is_blacklisted(platform)
    }
}

/// A name without a separator never equals a directory that holds one:
/// with both blacklisted directories given as paths of several segments,
/// no last component of a path is ever blacklisted.
pub proof fn multi_segment_roots_never_match(name: Seq<char>, platform: Platform)
    requires
        platform.sys_dir@.contains(platform.fs_dir_sep),
        platform.tmp_dir@.contains(platform.fs_dir_sep),
        !name.contains(platform.fs_dir_sep),
    ensures
        !blacklisted(Some(name), platform),
{
}

/// The blacklisted directories of a user's machine are paths of several
/// segments: each holds the separator.
pub proof fn user_roots_hold_separator(user: Seq<char>)
    ensures
        "C:\\Windows"@.contains('\\'),
        tmp_dir_of(user).contains('\\'),
{
    reveal_strlit("C:\\Windows");
    reveal_strlit("C:\\users\\");
    assert("C:\\Windows"@[2] == '\\');
    assert("C:\\users\\"@[2] == '\\');
    assert(tmp_dir_of(user)[2] == '\\');
}

/// On a user's machine no last component of a path is blacklisted: a
/// component holds no separator, and the blacklisted directories do.
pub proof fn components_are_never_blacklisted(
    name: Seq<char>,
    user: Seq<char>,
    platform: Platform,
)
    requires
        platform.fs_dir_sep == '\\',
        platform.sys_dir@ == "C:\\Windows"@,
        platform.tmp_dir@ == tmp_dir_of(user),
        !name.contains('\\'),
    ensures
        !blacklisted(Some(name), platform),
{
    user_roots_hold_separator(user);
    multi_segment_roots_never_match(name, platform);
}

} // verus!
