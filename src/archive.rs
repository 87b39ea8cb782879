use vstd::prelude::*;
use vstd::string::{StrSliceExecFns, StringExecFns};
use std::io::Read;
use crate::errors::{DomainError, ErrorKind};
use crate::paths::{child_of, child_path};
use crate::session::{ActionView, HostAction};
use crate::text::{ends_with_char, find_last, last_index_of};

verus! {

#[verifier::external_type_specification]
#[verifier::external_body]
pub struct ExZipError(zip::result::ZipError);

/// How many entries the zip crate finds listed in the archive `data`, or
/// none when `data` is not an archive it can open.
pub uninterp spec fn zip_entry_count(data: Seq<u8>) -> Option<nat>;

/// The name and the decompressed contents that the zip crate reads for
/// entry `index` of the archive `data`, or none where it cannot read them.
pub uninterp spec fn zip_entry(data: Seq<u8>, index: nat) -> Option<(Seq<char>, Seq<u8>)>;

/// Relies on `zip::ZipArchive::new` and `ZipArchive::len`: opening reads the
/// archive's central directory from the bytes alone.
#[verifier::external_body]
fn open_archive(data: &[u8]) -> (r: Result<usize, zip::result::ZipError>)
    ensures
        match r {
            Ok(n) => zip_entry_count(data@) == Some(n as nat),
            Err(_) => zip_entry_count(data@) is None,
        },
{
    zip::ZipArchive::new(std::io::Cursor::new(data)).map(|archive| archive.len())
}

/// Relies on `zip::ZipArchive::by_index`, `ZipFile::name` and reading the
/// entry to its end: the entry's name and decompressed contents.
#[verifier::external_body]
fn read_entry(data: &[u8], index: usize) -> (r: Result<(String, Vec<u8>), zip::result::ZipError>)
    ensures
        match r {
            Ok((name, contents)) => zip_entry(data@, index as nat) == Some((name@, contents@)),
            Err(_) => zip_entry(data@, index as nat) is None,
        },
{
    let mut archive = zip::ZipArchive::new(std::io::Cursor::new(data))?;
    let mut entry = archive.by_index(index)?;
    let mut contents = Vec::new();
    entry.read_to_end(&mut contents)?;
    Ok((entry.name().to_string(), contents))
}

/// Relies on the `Display` of `zip::result::ZipError`: the text that
/// describes the error.
#[verifier::external_body]
fn zip_error_text(e: &zip::result::ZipError) -> (r: String) {
    e.to_string()
}

/// The directory that holds the entry `name` once unpacked into `target`.
pub open spec fn parent_of(target: Seq<char>, name: Seq<char>) -> Seq<char> {
    match last_index_of(name, '/') {
        Some(k) => child_of(target, name.subrange(0, k)),
        None => target,
    }
}

/// What unpacking one entry into `target` takes: a directory entry (its
/// name ends in `/`) is created; a file gets its directory and then its
/// contents.
pub open spec fn entry_actions(target: Seq<char>, name: Seq<char>, contents: Seq<u8>) -> Seq<
    ActionView,
> {
    if name.len() > 0 && name.last() == '/' {
        seq![ActionView::CreateDirAll(child_of(target, name))]
    } else {
        seq![
            ActionView::CreateDirAll(parent_of(target, name)),
            ActionView::WriteFile(child_of(target, name), contents),
        ]
    }
}

/// What unpacking `entries`, in order, into `target` takes.
pub open spec fn extraction_plan(target: Seq<char>, entries: Seq<(Seq<char>, Seq<u8>)>) -> Seq<
    ActionView,
>
    decreases entries.len(),
{
    if entries.len() == 0 {
        Seq::empty()
    } else {
        extraction_plan(target, entries.drop_last()) + entry_actions(
            target,
            entries.last().0,
            entries.last().1,
        )
    }
}

/// The first `k` entries that the zip crate reads from the archive `data`.
pub open spec fn listed_entries(data: Seq<u8>, k: nat) -> Seq<(Seq<char>, Seq<u8>)> {
    Seq::new(k, |i: int| zip_entry(data, i as nat)->Some_0)
}

/// Whether the zip crate reads each of the first `k` entries of `data`.
pub open spec fn entries_readable(data: Seq<u8>, k: nat) -> bool {
    forall|i: nat| i < k ==> (#[trigger] zip_entry(data, i)) is Some
}

/// What unpacking the archive `data` into `target` hands to the host, and
/// how it ends: every entry that can be read, in order; then success, or an
/// installation failure where the bytes are no archive or an entry cannot
/// be read from them.
pub open spec fn unpacked(
    data: Seq<u8>,
    target: Seq<char>,
    actions: Seq<ActionView>,
    end: Result<(), ErrorKind>,
) -> bool {
    match zip_entry_count(data) {
        None => actions.len() == 0 && end == Err::<(), ErrorKind>(ErrorKind::Installation),
        Some(n) => exists|k: nat|
            {
                &&& k <= n
                &&& entries_readable(data, k)
                &&& actions == extraction_plan(target, listed_entries(data, k))
                &&& if k == n {
                    end is Ok
                } else {
                    zip_entry(data, k) is None && end == Err::<(), ErrorKind>(ErrorKind::Installation)
                }
            },
    }
}

proof fn lemma_last_index_in_bounds(s: Seq<char>, c: char)
    ensures
        match last_index_of(s, c) {
            Some(k) => 0 <= k < s.len() && s[k] == c,
            None => true,
        },
    decreases s.len(),
{
    if s.len() > 0 && s.last() != c {
        lemma_last_index_in_bounds(s.drop_last(), c);
    }
}

/// The directory that holds the entry `name` once unpacked into `target`.
fn parent_dir(target: &str, name: &str) -> (r: String)
    ensures
        r@ == parent_of(target@, name@),
{
    proof {
        lemma_last_index_in_bounds(name@, '/');
    }
    match find_last(name, '/') {
        Some(k) => child_path(target, name.substring_char(0, k)),
        None => String::from_str(target),
    }
}

/// The host actions that unpack the archive `data` into the directory
/// `target`, and how the unpacking ends once they are done: an installation
/// failure when `data` is not an archive or an entry cannot be read from
/// it, else success.
pub fn unpack_actions(data: &[u8], target: &str) -> (r: (Vec<HostAction>, Result<(), DomainError>))
    ensures
        unpacked(
            data@,
            target@,
            r.0@.map_values(|a: HostAction| a@),
            match r.1 {
                Ok(()) => Ok(()),
                Err(e) => Err(e@.kind),
            },
        ),
{
    let mut actions: Vec<HostAction> = Vec::new();
    let n = match open_archive(data) {
        Ok(n) => n,
        Err(e) => {
            assert(actions@.map_values(|a: HostAction| a@) =~= Seq::<ActionView>::empty());
            return (actions, Err(DomainError::InstallationFailed(zip_error_text(&e))));
        },
    };
    let mut i: usize = 0;
    while i < n
        invariant
            zip_entry_count(data@) == Some(n as nat),
            i <= n,
            entries_readable(data@, i as nat),
            actions@.map_values(|a: HostAction| a@) == extraction_plan(
                target@,
                listed_entries(data@, i as nat),
            ),
        decreases n - i,
    {
        let ghost before = actions@.map_values(|a: HostAction| a@);
        let (name, contents) = match read_entry(data, i) {
            Ok(entry) => entry,
            Err(e) => {
                return (actions, Err(DomainError::InstallationFailed(zip_error_text(&e))));
            },
        };
        let ghost entry = (name@, contents@);
        let path = child_path(target, name.as_str());
        if ends_with_char(name.as_str(), '/') {
            actions.push(HostAction::CreateDirAll { path });
        } else {
            let parent = parent_dir(target, name.as_str());
            actions.push(HostAction::CreateDirAll { path: parent });
            actions.push(HostAction::WriteFile { path, contents });
        }
        proof {
            let listed = listed_entries(data@, (i + 1) as nat);
            assert(listed.drop_last() =~= listed_entries(data@, i as nat));
            assert(listed.last() == entry);
            assert(actions@.map_values(|a: HostAction| a@) =~= before + entry_actions(
                target@,
                entry.0,
                entry.1,
            ));
        }
        i = i + 1;
    }
    (actions, Ok(()))
}

} // verus!
