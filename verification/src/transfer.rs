//! What to do with an answer of the score service and with the archive of
//! pictures: the decisions, without the transfers themselves.

use vstd::prelude::*;
use crate::text::{chars_of, text_of};

verus! {

/// What an answer of the score service means.
#[derive(Clone, Copy, Debug, PartialEq, Eq, Structural)]
pub enum PlayerLookup {
    /// The answer holds the plays of the player.
    Found,
    /// The service knows no player of this name.
    NoSuchPlayer,
    /// The player lets nobody else see the plays.
    Forbidden,
    /// The request has failed in some other way.
    Failed,
}

/// What the status code of an answer of the score service means.
pub open spec fn lookup_meaning(status: u16) -> PlayerLookup {
    if status == 200 {
        PlayerLookup::Found
    } else if status == 400 {
        PlayerLookup::NoSuchPlayer
    } else if status == 403 {
        PlayerLookup::Forbidden
    } else {
        PlayerLookup::Failed
    }
}

/// Tells what the status code of an answer of the score service means.
pub fn player_lookup(status: u16) -> (meaning: PlayerLookup)
    ensures
        meaning == lookup_meaning(status),
{
    match status {
        200 => PlayerLookup::Found,
        400 => PlayerLookup::NoSuchPlayer,
        403 => PlayerLookup::Forbidden,
        _ => PlayerLookup::Failed,
    }
}

/// What is done with the archive of pictures before it is unpacked.
#[derive(Clone, Copy, Debug, PartialEq, Eq, Structural)]
pub enum ArchiveStep {
    /// The archive on disk is used as it is.
    Keep,
    /// There is no archive on disk: it is fetched.
    Fetch,
    /// The archive on disk is removed, and the archive is fetched anew.
    Replace,
}

/// What is done with the archive: one that is missing is fetched; one that is
/// there is replaced if this is forced or if its length is not the length
/// that the server announces, where an answer without a length counts as the
/// length 0; else it is kept.
pub open spec fn archive_plan(
    force: bool,
    present: bool,
    length: u64,
    announced: Option<u64>,
) -> ArchiveStep {
    if !present {
        ArchiveStep::Fetch
    } else if force {
        ArchiveStep::Replace
    } else if length != (match announced {
        Some(n) => n,
        None => 0,
    }) {
        ArchiveStep::Replace
    } else {
        ArchiveStep::Keep
    }
}

/// Decides what is done with the archive of pictures.
///
/// `present` says whether there is an archive on disk and `length` how long
/// it is; `announced` is the length that the server gives for the archive.
pub fn archive_step(force: bool, present: bool, length: u64, announced: Option<u64>) -> (step:
    ArchiveStep)
    ensures
        step == archive_plan(force, present, length, announced),
{
    if !present {
        return ArchiveStep::Fetch;
    }
    if force {
        return ArchiveStep::Replace;
    }
    let expected: u64 = match announced {
        Some(n) => n,
        None => 0,
    };
    if length != expected {
        ArchiveStep::Replace
    } else {
        ArchiveStep::Keep
    }
}

/// How far a download has come after `read` more bytes: never beyond `total`.
pub fn progress_after(downloaded: u64, read: usize, total: u64) -> (position: u64)
    ensures
        position == if downloaded + read <= total {
            downloaded + read
        } else {
            total as int
        },
{
    let read: u64 = read as u64;
    if downloaded <= total && read <= total - downloaded {
        downloaded + read
    } else {
        total
    }
}

/// The directory of the archive from which pictures are taken.
pub open spec fn cover_directory() -> Seq<char> {
    "mai/cover/"@
}

/// Where the entry `name` of the archive goes: an entry that is no directory
/// and lies under the directory of covers goes to its path below that
/// directory; any other entry goes nowhere.
pub open spec fn cover_target(name: Seq<char>, is_dir: bool) -> Option<Seq<char>> {
    let prefix = cover_directory();
    if !is_dir && name.len() >= prefix.len() && name.take(prefix.len() as int) == prefix {
        Some(name.skip(prefix.len() as int))
    } else {
        None
    }
}

/// Tells where the entry `name` of the archive is unpacked to, if anywhere.
pub fn cover_entry_target(name: &str, is_dir: bool) -> (target: Option<String>)
    ensures
        match target {
            Some(path) => cover_target(name@, is_dir) == Some(path@),
            None => cover_target(name@, is_dir) is None,
        },
{
    if is_dir {
        return None;
    }
    let chars = chars_of(name);
    let prefix = chars_of("mai/cover/");
    if chars.len() < prefix.len() {
        return None;
    }
    let mut i: usize = 0;
    while i < prefix.len()
        invariant
            i <= prefix.len(),
            prefix.len() <= chars.len(),
            !is_dir,
            chars@ == name@,
            prefix@ == cover_directory(),
            forall|k: int| 0 <= k < i ==> chars@[k] == prefix@[k],
        decreases prefix.len() - i,
    {
        if chars[i] != prefix[i] {
            assert(chars@.take(prefix.len() as int)[i as int] != prefix@[i as int]);
            return None;
        }
        i += 1;
    }
    assert(chars@.take(prefix.len() as int) =~= prefix@);
    let mut rest: Vec<char> = Vec::new();
    let mut k: usize = prefix.len();
    while k < chars.len()
        invariant
            prefix.len() <= k <= chars.len(),
            rest@ == chars@.subrange(prefix.len() as int, k as int),
        decreases chars.len() - k,
    {
        rest.push(chars[k]);
        assert(chars@.subrange(prefix.len() as int, k + 1) =~= chars@.subrange(
            prefix.len() as int,
            k as int,
        ).push(chars@[k as int]));
        k += 1;
    }
    assert(chars@.subrange(prefix.len() as int, chars.len() as int) =~= chars@.skip(
        prefix.len() as int,
    ));
    Some(text_of(&rest))
}

} // verus!
