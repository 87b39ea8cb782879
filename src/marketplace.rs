use vstd::prelude::*;
use vstd::string::StringExecFns;
use crate::entities::{Extension, SearchResult, unique_identifier_of};
use crate::errors::{DomainError, ErrorKind, ErrorView};
use crate::text::same_text;

verus! {

/// One statistic of a marketplace record, as found in the response.
#[derive(Debug, Clone)]
pub struct Statistic {
    pub name: Option<String>,
    pub value: Option<u64>,
}

/// The fields of one extension record of a marketplace response, as found:
/// each is absent where the response lacks it or holds another type there.
#[derive(Debug, Clone)]
pub struct ExtensionRecord {
    pub publisher_name: Option<String>,
    pub extension_name: Option<String>,
    pub display_name: Option<String>,
    pub short_description: Option<String>,
    /// The `version` of each entry of the record's version list, in order.
    pub versions: Vec<Option<String>>,
    pub statistics: Vec<Statistic>,
}

/// How often an extension was installed: the value of the first statistic
/// named `install`, or 0 where there is none or it holds no count.
pub open spec fn install_count_of(stats: Seq<Statistic>) -> u64
    decreases stats.len(),
{
    if stats.len() == 0 {
        0
    } else if stats[0].name matches Some(n) && n@ == "install"@ {
        match stats[0].value {
            Some(v) => v,
            None => 0,
        }
    } else {
        install_count_of(stats.drop_first())
    }
}

/// How often an extension was installed, from a record's statistics.
pub fn install_count(stats: &Vec<Statistic>) -> (r: u64)
    ensures
        r == install_count_of(stats@),
{
    let mut i: usize = 0;
    assert(stats@.subrange(0, stats@.len() as int) =~= stats@);
    while i < stats.len()
        invariant
            i <= stats@.len(),
            install_count_of(stats@) == install_count_of(stats@.subrange(i as int, stats@.len() as int)),
        decreases stats.len() - i,
    {
        let ghost rest = stats@.subrange(i as int, stats@.len() as int);
        assert(rest.drop_first() =~= stats@.subrange(i + 1, stats@.len() as int));
        assert(rest[0] == stats@[i as int]);
        let is_install = match &stats[i].name {
            Some(n) => same_text(n.as_str(), "install"),
            None => false,
        };
        if is_install {
            return match stats[i].value {
                Some(v) => v,
                None => 0,
            };
        }
        i = i + 1;
    }
    assert(stats@.subrange(i as int, stats@.len() as int).len() == 0);
    0
}

/// The version that a record offers: the first entry's, or `latest`.
pub open spec fn version_of(versions: Seq<Option<String>>) -> Seq<char> {
    if versions.len() > 0 && versions[0] is Some {
        versions[0]->Some_0@
    } else {
        "latest"@
    }
}

/// Whether a record names its publisher and its extension.
pub open spec fn record_is_complete(rec: ExtensionRecord) -> bool {
    rec.publisher_name is Some && rec.extension_name is Some
}

/// Whether `e` is what the complete record `rec` describes.
pub open spec fn describes(e: Extension, rec: ExtensionRecord) -> bool {
    let publisher = rec.publisher_name->Some_0@;
    let name = rec.extension_name->Some_0@;
    &&& e.id@ == unique_identifier_of(publisher, name)
    &&& e.publisher@ == publisher
    &&& e.name@ == name
    &&& e.display_name@ == match rec.display_name {
        Some(d) => d@,
        None => name,
    }
    &&& e.description == rec.short_description
    &&& e.version@ == version_of(rec.versions@)
    &&& e.downloads == install_count_of(rec.statistics@)
}

/// The extension that a marketplace record describes; a record without a
/// publisher or an extension name is a parse error.
pub fn parse_extension(rec: ExtensionRecord) -> (r: Result<Extension, DomainError>)
    ensures
        match r {
            Ok(e) => record_is_complete(rec) && describes(e, rec),
            Err(e) => !record_is_complete(rec) && e@ == (ErrorView {
                kind: ErrorKind::Parse,
                detail: if rec.publisher_name is None {
                    "Missing publisher name"@
                } else {
                    "Missing extension name"@
                },
            }),
        },
{
    let ghost input = rec;
    let downloads = install_count(&rec.statistics);
    let version = if rec.versions.len() > 0 {
        match &rec.versions[0] {
            Some(v) => v.clone(),
            None => String::from_str("latest"),
        }
    } else {
        String::from_str("latest")
    };
    let ExtensionRecord { publisher_name, extension_name, display_name, short_description, .. } =
        rec;
    let publisher = match publisher_name {
        Some(p) => p,
        None => return Err(DomainError::ParseError(String::from_str("Missing publisher name"))),
    };
    let name = match extension_name {
        Some(n) => n,
        None => return Err(DomainError::ParseError(String::from_str("Missing extension name"))),
    };
    let display_name = match display_name {
        Some(d) => d,
        None => name.clone(),
    };
    let mut id = publisher.clone();
    id.push('.');
    id.append(name.as_str());
    assert(id@ == unique_identifier_of(publisher@, name@));
    assert(version@ == version_of(input.versions@));
    assert(downloads == install_count_of(input.statistics@));
    Ok(Extension {
        id,
        name,
        publisher,
        version,
        display_name,
        description: short_description,
        downloads,
    })
}

/// The complete records among `records`, in order.
pub open spec fn complete_records(records: Seq<ExtensionRecord>) -> Seq<ExtensionRecord>
    decreases records.len(),
{
    if records.len() == 0 {
        Seq::empty()
    } else {
        let rest = complete_records(records.drop_last());
        if record_is_complete(records.last()) {
            rest.push(records.last())
        } else {
            rest
        }
    }
}

/// The extensions that the records of a marketplace response describe, in
/// order; records that do not parse are left out.
pub fn parse_search_results(records: Vec<ExtensionRecord>) -> (r: Vec<Extension>)
    ensures
        r@.len() == complete_records(records@).len(),
        forall|i: int|
            0 <= i < r@.len() ==> describes(#[trigger] r@[i], complete_records(records@)[i]),
{
    let ghost all = records@;
    let mut rest = records;
    let mut out: Vec<Extension> = Vec::new();
    let ghost mut seen: Seq<ExtensionRecord> = Seq::empty();
    assert(all =~= seen + rest@);
    while rest.len() > 0
        invariant
            all == seen + rest@,
            out@.len() == complete_records(seen).len(),
            forall|i: int|
                0 <= i < out@.len() ==> describes(#[trigger] out@[i], complete_records(seen)[i]),
        decreases rest.len(),
    {
        let ghost before = rest@;
        let rec = rest.remove(0);
        proof {
            assert(seen.push(rec).drop_last() =~= seen);
            assert(all =~= seen.push(rec) + rest@);
            seen = seen.push(rec);
        }
        match parse_extension(rec) {
            Ok(e) => {
                out.push(e);
            },
            Err(_) => {},
        }
    }
    assert(seen =~= all);
    out
}

/// The position of the first extension known as `id` in `extensions`.
pub open spec fn first_known_as(extensions: Seq<Extension>, id: Seq<char>, i: int) -> bool {
    &&& 0 <= i < extensions.len()
    &&& unique_identifier_of(extensions[i].publisher@, extensions[i].name@) == id
    &&& forall|j: int|
        0 <= j < i ==> unique_identifier_of(
            #[trigger] extensions[j].publisher@,
            extensions[j].name@,
        ) != id
}

/// The first of `extensions` that is known as `id`; it is an error that
/// none is.
pub fn find_extension(extensions: Vec<Extension>, id: &str) -> (r: Result<Extension, DomainError>)
    ensures
        match r {
            Ok(e) => exists|i: int| first_known_as(extensions@, id@, i) && e == extensions@[i],
            Err(e) => e@ == (ErrorView { kind: ErrorKind::NotFound, detail: id@ }) && forall|
                j: int,
            |
                0 <= j < extensions@.len() ==> unique_identifier_of(
                    #[trigger] extensions@[j].publisher@,
                    extensions@[j].name@,
                ) != id@,
        },
{
    let ghost given = extensions@;
    let mut candidates = extensions;
    let mut i: usize = 0;
    while i < candidates.len()
        invariant
            candidates@ == given,
            given == extensions@,
            i <= candidates@.len(),
            forall|j: int|
                0 <= j < i ==> unique_identifier_of(
                    #[trigger] given[j].publisher@,
                    given[j].name@,
                ) != id@,
        decreases candidates.len() - i,
    {
        let candidate = candidates[i].unique_identifier();
        if same_text(candidate.as_str(), id) {
            let found = candidates.remove(i);
            assert(first_known_as(given, id@, i as int) && found == given[i as int]);
            return Ok(found);
        }
        i = i + 1;
    }
    Err(DomainError::ExtensionNotFound(String::from_str(id)))
}

/// The name of the file that a downloaded package is saved under:
/// `<id>-<version>.vsix`.
pub fn download_file_name(extension_id: &str, version: &str) -> (r: String)
    ensures
        r@ == extension_id@ + seq!['-'] + version@ + ".vsix"@,
{
    let mut r = String::from_str(extension_id);
    r.push('-');
    r.append(version);
    r.append(".vsix");
    r
}

/// A search result of the extensions that the records describe; its count
/// is how many there are.
pub fn search_result(records: Vec<ExtensionRecord>) -> (r: SearchResult)
    ensures
        r.extensions@.len() == complete_records(records@).len(),
        r.total_count == r.extensions@.len(),
        forall|i: int|
            0 <= i < r.extensions@.len() ==> describes(
                #[trigger] r.extensions@[i],
                complete_records(records@)[i],
            ),
{
    let extensions = parse_search_results(records);
    let total_count = extensions.len();
    SearchResult { extensions, total_count }
}

} // verus!
