use vstd::prelude::*;
use vstd::string::StringExecFns;

verus! {

/// What the marketplace says of one extension.
#[derive(Debug, Clone, PartialEq)]
pub struct Extension {
    pub id: String,
    pub name: String,
    pub publisher: String,
    pub version: String,
    pub display_name: String,
    pub description: Option<String>,
    pub downloads: u64,
}

/// `publisher.name`: how the marketplace and the editors know an extension.
pub open spec fn unique_identifier_of(publisher: Seq<char>, name: Seq<char>) -> Seq<char> {
    publisher + seq!['.'] + name
}

/// Where the marketplace serves a version of an extension, for a target
/// platform or for all of them.
pub open spec fn download_url_of(
    publisher: Seq<char>,
    name: Seq<char>,
    version: Seq<char>,
    platform: Option<Seq<char>>,
) -> Seq<char> {
    let base = "https://marketplace.visualstudio.com/_apis/public/gallery/publishers/"@ + publisher
        + "/vsextensions/"@ + name + "/"@ + version + "/vspackage"@;
    match platform {
        Some(p) => base + "?targetPlatform="@ + p,
        None => base,
    }
}

impl Extension {
    pub fn unique_identifier(&self) -> (r: String)
        ensures
            r@ == unique_identifier_of(self.publisher@, self.name@),
    {
        let mut r = self.publisher.clone();
        r.push('.');
        r.append(self.name.as_str());
        r
    }

    pub fn download_url(&self, target_platform: Option<&str>) -> (r: String)
        ensures
            r@ == download_url_of(
                self.publisher@,
                self.name@,
                self.version@,
                match target_platform {
                    Some(p) => Some(p@),
                    None => None,
                },
            ),
    {
        let mut r = String::from_str(
            "https://marketplace.visualstudio.com/_apis/public/gallery/publishers/",
        );
        r.append(self.publisher.as_str());
        r.append("/vsextensions/");
        r.append(self.name.as_str());
        r.append("/");
        r.append(self.version.as_str());
        r.append("/vspackage");
        match target_platform {
            Some(platform) => {
                r.append("?targetPlatform=");
                r.append(platform);
            },
            None => {},
        }
        r
    }
}

/// The extensions that a search found.
#[derive(Debug, Clone)]
pub struct SearchResult {
    pub extensions: Vec<Extension>,
    pub total_count: usize,
}

} // verus!
