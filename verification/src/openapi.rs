//! The service's API specification document and its generation.

use vstd::prelude::*;
use crate::dispatch::{Action, OpenapiParams, action_contents};
use crate::text::{decimal_text, escape_json, escape_text};

verus! {

/// One route of the service as the specification document describes it.
pub struct PathItem {
    pub path: String,
    pub summary: String,
}

/// A structural description of the service's API surface: just enough to
/// produce the specification document.
pub struct ApiDescription {
    pub paths: Vec<PathItem>,
}

/// The specification document before serialization: a title, a semantic
/// version, and the described routes.
pub struct SpecDocument {
    pub title: String,
    pub version: String,
    pub paths: Vec<PathItem>,
}

/// How one route appears in the serialized document.
pub open spec fn path_entry_text(item: PathItem) -> Seq<char> {
    "    \""@ + escape_text(item.path@) + "\": {\n      \"summary\": \""@ + escape_text(
        item.summary@,
    ) + "\"\n    }"@
}

/// How a list of routes appears in the serialized document: the entries in
/// order, separated by commas.
pub open spec fn path_entries_text(items: Seq<PathItem>) -> Seq<char>
    decreases items.len(),
{
    if items.len() == 0 {
        Seq::empty()
    } else if items.len() == 1 {
        path_entry_text(items[0])
    } else {
        path_entries_text(items.drop_last()) + ",\n"@ + path_entry_text(items.last())
    }
}

/// The `paths` object of the serialized document.
pub open spec fn paths_text(items: Seq<PathItem>) -> Seq<char> {
    if items.len() == 0 {
        "{}"@
    } else {
        "{\n"@ + path_entries_text(items) + "\n  }"@
    }
}

/// The full serialized document: pretty-printed structured text with
/// top-level fields for the title, the version and the routes, ending in a
/// newline.
pub open spec fn document_text(
    title: Seq<char>,
    version: Seq<char>,
    paths: Seq<PathItem>,
) -> Seq<char> {
    "{\n  \"title\": \""@ + escape_text(title) + "\",\n  \"version\": \""@ + escape_text(version)
        + "\",\n  \"paths\": "@ + paths_text(paths) + "\n}\n"@
}

impl SpecDocument {
    /// Serialize the document as pretty-printed structured text.
    pub fn render_pretty(&self) -> (r: String)
        ensures
            r@ == document_text(self.title@, self.version@, self.paths@),
    {
        let mut out = String::from_str("{\n  \"title\": \"");
        let escaped_title = escape_json(self.title.as_str());
        out.append(escaped_title.as_str());
        out.append("\",\n  \"version\": \"");
        let escaped_version = escape_json(self.version.as_str());
        out.append(escaped_version.as_str());
        out.append("\",\n  \"paths\": ");
        if self.paths.len() == 0 {
            out.append("{}");
        } else {
            out.append("{\n");
            let ghost before_entries = out@;
            let mut i: usize = 0;
            while i < self.paths.len()
                invariant
                    i <= self.paths@.len(),
                    out@ == before_entries + path_entries_text(self.paths@.subrange(0, i as int)),
                decreases self.paths@.len() - i,
            {
                if i > 0 {
                    out.append(",\n");
                }
                let entry = render_path_entry(&self.paths[i]);
                out.append(entry.as_str());
                proof {
                    let items = self.paths@;
                    let extended = items.subrange(0, i + 1 as int);
                    assert(extended.drop_last() =~= items.subrange(0, i as int));
                    assert(out@ =~= before_entries + path_entries_text(extended));
                }
                i += 1;
            }
            proof {
                assert(self.paths@.subrange(0, self.paths@.len() as int) =~= self.paths@);
            }
            out.append("\n  }");
        }
        out.append("\n}\n");
        proof {
            assert(out@ =~= document_text(self.title@, self.version@, self.paths@));
        }
        out
    }
}

/// Serialize one route of the document.
fn render_path_entry(item: &PathItem) -> (r: String)
    ensures
        r@ == path_entry_text(*item),
{
    let mut out = String::from_str("    \"");
    let escaped_path = escape_json(item.path.as_str());
    out.append(escaped_path.as_str());
    out.append("\": {\n      \"summary\": \"");
    let escaped_summary = escape_json(item.summary.as_str());
    out.append(escaped_summary.as_str());
    out.append("\"\n    }");
    proof {
        assert(out@ =~= path_entry_text(*item));
    }
    out
}

impl ApiDescription {
    /// Tag the description with a title and a version, yielding the
    /// document to serialize.
    pub fn openapi(self, title: &str, version: String) -> (doc: SpecDocument)
        ensures
            doc.title@ == title@,
            doc.version@ == version@,
            doc.paths@ == self.paths@,
    {
        SpecDocument { title: title.to_owned(), version, paths: self.paths }
    }
}

/// Construct the stand-in description of the service's API surface used for
/// document generation: it lists no routes, so the document can be produced
/// without the service implementation being present.
pub fn stub_api_description() -> (r: ApiDescription)
    ensures
        r.paths@ == Seq::<PathItem>::empty(),
{
    ApiDescription { paths: Vec::new() }
}

/// Relies on `semver::Version`: a version made by `Version::new` carries
/// empty pre-release and build parts and displays as the three dot-separated
/// decimal numbers.
#[verifier::external_body]
fn version_string(major: u64, minor: u64, patch: u64) -> (r: String)
    ensures
        r@ == decimal_text(major as nat) + "."@ + decimal_text(minor as nat) + "."@ + decimal_text(
            patch as nat,
        ),
{
    semver::Version::new(major, minor, patch).to_string()
}

/// The serialized specification document as a run emits it: the fixed title,
/// version `0.1.0`, and the stub description's routes.
pub open spec fn emitted_document_text() -> Seq<char> {
    document_text(
        "Contributions Tracker API"@,
        seq!['0', '.', '1', '.', '0'],
        Seq::<PathItem>::empty(),
    )
}

/// Generate the specification document and decide where it goes: to the
/// given file when an output path was supplied, to the standard output
/// stream otherwise. The document bytes are the same either way.
pub fn generate_openapi(params: &OpenapiParams) -> (r: Action)
    ensures
        action_contents(r) == Some(emitted_document_text()),
        params.output matches Some(path) ==> (r matches Action::WriteFile {
            path: out_path,
            ..
        } && out_path@ == path@),
        params.output is None ==> r is PrintStdout,
{
    let api = stub_api_description();
    let version = version_string(0, 1, 0);
    proof {
        reveal_strlit(".");
        assert(version@ =~= seq!['0', '.', '1', '.', '0']);
    }
    let doc = api.openapi("Contributions Tracker API", version);
    let contents = doc.render_pretty();
    match &params.output {
        Some(path) => Action::WriteFile { path: path.clone(), contents },
        None => Action::PrintStdout { contents },
    }
}

} // verus!
