//! Merging per-service API description documents into one document.
//!
//! Each discovered document carries its declared server URLs, its paths, and
//! its component schemas and security schemes; the payload under each path or
//! component name is carried as opaque text. The merger mounts every path
//! under the prefix taken from the document's first server URL and copies the
//! components, later documents overwriting earlier ones on a name collision.

use vstd::prelude::*;
use crate::kv::{Entry, insert_or_replace, inserted, lookup, unique_keys};
use crate::text::str_concat;

verus! {

/// One service's description document, reduced to what the merge reads: the
/// declared server URLs and the named sections. Section values are the
/// documents' own subtrees, carried as text and never inspected.
#[derive(Debug)]
pub struct ApiDocument {
    pub server_urls: Vec<String>,
    pub paths: Vec<Entry>,
    pub schemas: Vec<Entry>,
    pub security_schemes: Vec<Entry>,
}

/// A document keyed by the file stem it was discovered under.
#[derive(Debug)]
pub struct NamedDocument {
    pub service: String,
    pub doc: ApiDocument,
}

/// The merge's failure: the named service's document declares no server, or a
/// first server URL that does not parse.
#[derive(Debug)]
pub struct MergeError {
    pub service: String,
}

impl MergeError {
    /// A line describing the failure.
    pub fn message(&self) -> (r: String)
        ensures
            r@ == "No usable server URL in document: "@ + self.service@,
    {
        str_concat("No usable server URL in document: ", self.service.as_str())
    }
}

/// The merged document: fixed descriptive fields, the gateway's own server
/// entry, and the three merged sections.
#[derive(Debug)]
pub struct MergedDocument {
    pub openapi: String,
    pub title: String,
    pub version: String,
    pub description: String,
    pub server_url: String,
    pub paths: Vec<Entry>,
    pub schemas: Vec<Entry>,
    pub security_schemes: Vec<Entry>,
}

/// The path component of a URI, when the text parses as one. The outcome
/// depends on the characters alone.
pub uninterp spec fn uri_path_of(s: Seq<char>) -> Option<Seq<char>>;

/// Relies on hyper::Uri (http's URI type): parsing a URI reference and taking
/// its path component, a pure function of the string.
#[verifier::external_body]
fn uri_path(url: &str) -> (r: Option<String>)
    ensures
        match r {
            Some(p) => uri_path_of(url@) == Some(p@),
            None => uri_path_of(url@) is None,
        },
{
    match url.parse::<hyper::Uri>() {
        Ok(u) => Some(u.path().to_string()),
        Err(_) => None,
    }
}

/// A path with at most one trailing slash removed.
pub open spec fn spec_strip_trailing_slash(p: Seq<char>) -> Seq<char> {
    if p.len() > 0 && p.last() == '/' {
        p.drop_last()
    } else {
        p
    }
}

/// Removes one trailing slash, if the path ends with one.
pub fn strip_trailing_slash(p: &str) -> (r: String)
    ensures
        r@ == spec_strip_trailing_slash(p@),
{
    let n = p.unicode_len();
    if n > 0 && p.get_char(n - 1) == '/' {
        let r = p.substring_char(0, n - 1).to_owned();
        proof {
            assert(r@ =~= p@.drop_last());
        }
        r
    } else {
        p.to_owned()
    }
}

/// The mount prefix a document's paths go under: the path component of its
/// first declared server URL, with a trailing slash stripped. Nothing when
/// the document declares no server or its first server URL does not parse.
pub open spec fn spec_mount_prefix(doc: ApiDocument) -> Option<Seq<char>> {
    if doc.server_urls@.len() == 0 {
        None
    } else {
        match uri_path_of(doc.server_urls@[0]@) {
            Some(p) => Some(spec_strip_trailing_slash(p)),
            None => None,
        }
    }
}

/// Computes a document's mount prefix from its first declared server URL.
pub fn mount_prefix(doc: &ApiDocument) -> (r: Option<String>)
    ensures
        match r {
            Some(p) => spec_mount_prefix(*doc) == Some(p@),
            None => spec_mount_prefix(*doc) is None,
        },
{
    if doc.server_urls.len() == 0 {
        return None;
    }
    match uri_path(doc.server_urls[0].as_str()) {
        Some(p) => Some(strip_trailing_slash(p.as_str())),
        None => None,
    }
}

/// An option's content, or the empty string.
pub open spec fn or_empty(p: Option<Seq<char>>) -> Seq<char> {
    match p {
        Some(s) => s,
        None => Seq::<char>::empty(),
    }
}

/// The value of the last entry whose prefixed key equals `k`, if any: within
/// one document, a later entry overwrites an earlier one under the same key.
pub open spec fn rlookup(entries: Seq<Entry>, prefix: Seq<char>, k: Seq<char>) -> Option<Seq<char>>
    decreases entries.len(),
{
    if entries.len() == 0 {
        None
    } else if prefix + entries.last().key@ == k {
        Some(entries.last().value@)
    } else {
        rlookup(entries.drop_last(), prefix, k)
    }
}

/// The value of the last entry with key `k`, if any.
pub open spec fn rlookup_plain(entries: Seq<Entry>, k: Seq<char>) -> Option<Seq<char>>
    decreases entries.len(),
{
    if entries.len() == 0 {
        None
    } else if entries.last().key@ == k {
        Some(entries.last().value@)
    } else {
        rlookup_plain(entries.drop_last(), k)
    }
}

/// The merged value under path key `k`: the contribution of the last document
/// that mounts an entry there, where each document's entries go under its
/// mount prefix.
pub open spec fn merged_path_lookup(docs: Seq<NamedDocument>, k: Seq<char>) -> Option<Seq<char>>
    decreases docs.len(),
{
    if docs.len() == 0 {
        None
    } else {
        let here = rlookup(
            docs.last().doc.paths@,
            or_empty(spec_mount_prefix(docs.last().doc)),
            k,
        );
        if here is Some {
            here
        } else {
            merged_path_lookup(docs.drop_last(), k)
        }
    }
}

/// The merged schema under name `k`: the last document that defines the name
/// wins.
pub open spec fn merged_schema_lookup(docs: Seq<NamedDocument>, k: Seq<char>) -> Option<Seq<char>>
    decreases docs.len(),
{
    if docs.len() == 0 {
        None
    } else {
        let here = rlookup_plain(docs.last().doc.schemas@, k);
        if here is Some {
            here
        } else {
            merged_schema_lookup(docs.drop_last(), k)
        }
    }
}

/// The merged security scheme under name `k`: the last document that defines
/// the name wins.
pub open spec fn merged_scheme_lookup(docs: Seq<NamedDocument>, k: Seq<char>) -> Option<Seq<char>>
    decreases docs.len(),
{
    if docs.len() == 0 {
        None
    } else {
        let here = rlookup_plain(docs.last().doc.security_schemes@, k);
        if here is Some {
            here
        } else {
            merged_scheme_lookup(docs.drop_last(), k)
        }
    }
}

/// Merging two documents keeps their path contributions side by side: a key
/// the later document mounts an entry under takes that entry, and a key only
/// the earlier document mounts an entry under keeps the earlier entry. With
/// distinct mount prefixes the two documents' keys never collide, so both
/// appear in the merged document.
pub proof fn lemma_merge_keeps_disjoint_paths(a: NamedDocument, b: NamedDocument, k: Seq<char>)
    ensures
        rlookup(b.doc.paths@, or_empty(spec_mount_prefix(b.doc)), k) is Some
            ==> merged_path_lookup(seq![a, b], k) == rlookup(
            b.doc.paths@,
            or_empty(spec_mount_prefix(b.doc)),
            k,
        ),
        rlookup(b.doc.paths@, or_empty(spec_mount_prefix(b.doc)), k) is None
            ==> merged_path_lookup(seq![a, b], k) == rlookup(
            a.doc.paths@,
            or_empty(spec_mount_prefix(a.doc)),
            k,
        ),
{
    let two = seq![a, b];
    let one = seq![a];
    assert(two.last() == b);
    assert(two.drop_last() =~= one);
    assert(one.last() == a);
    assert(one.drop_last() =~= Seq::<NamedDocument>::empty());
    assert(merged_path_lookup(Seq::<NamedDocument>::empty(), k) is None);
    if rlookup(b.doc.paths@, or_empty(spec_mount_prefix(b.doc)), k) is None {
        assert(merged_path_lookup(two, k) == merged_path_lookup(one, k));
        if rlookup(a.doc.paths@, or_empty(spec_mount_prefix(a.doc)), k) is None {
            assert(merged_path_lookup(one, k) == merged_path_lookup(
                Seq::<NamedDocument>::empty(),
                k,
            ));
        }
    }
}

/// When two documents both define a component schema under one name, the
/// merged document carries the definition of the document merged last; the
/// earlier definition is overwritten silently. Together with the merged
/// sections' key uniqueness, the name appears exactly once.
pub proof fn lemma_merge_schema_last_wins(a: NamedDocument, b: NamedDocument, name: Seq<char>)
    requires
        rlookup_plain(b.doc.schemas@, name) is Some,
    ensures
        merged_schema_lookup(seq![a, b], name) == rlookup_plain(b.doc.schemas@, name),
{
    assert(seq![a, b].last() == b);
}

/// Does some document carry this service name?
pub open spec fn has_service(docs: Seq<NamedDocument>, service: Seq<char>) -> bool {
    exists|i: int| #![trigger docs[i]] 0 <= i < docs.len() && docs[i].service@ == service
}

/// The document of the first entry with this service name, if any.
pub open spec fn doc_lookup(docs: Seq<NamedDocument>, service: Seq<char>) -> Option<ApiDocument>
    decreases docs.len(),
{
    if docs.len() == 0 {
        None
    } else if docs[0].service@ == service {
        Some(docs[0].doc)
    } else {
        doc_lookup(docs.drop_first(), service)
    }
}

/// What storing a freshly loaded document does to the collection: the service
/// name now holds this document, every other name is untouched, and the
/// collection grows exactly when the name was new.
pub open spec fn doc_inserted(
    pre: Seq<NamedDocument>,
    service: Seq<char>,
    doc: ApiDocument,
    post: Seq<NamedDocument>,
) -> bool {
    &&& doc_lookup(post, service) == Some(doc)
    &&& (forall|k: Seq<char>|
        #![trigger doc_lookup(post, k)]
        k != service ==> doc_lookup(post, k) == doc_lookup(pre, k))
    &&& post.len() == pre.len() + (if has_service(pre, service) {
        0int
    } else {
        1int
    })
}

proof fn lemma_doc_lookup_update(s: Seq<NamedDocument>, i: int, e: NamedDocument, k: Seq<char>)
    requires
        0 <= i < s.len(),
        s[i].service@ == e.service@,
        forall|j: int| #![trigger s[j]] 0 <= j < i ==> s[j].service@ != e.service@,
    ensures
        doc_lookup(s.update(i, e), k) == (if k == e.service@ {
            Some(e.doc)
        } else {
            doc_lookup(s, k)
        }),
    decreases s.len(),
{
    let t = s.update(i, e);
    if i == 0 {
        assert(t[0] == e);
        if k != e.service@ {
            assert(t.drop_first() =~= s.drop_first());
        }
    } else {
        assert(t[0] == s[0]);
        if s[0].service@ == k {
        } else {
            assert(t.drop_first() =~= s.drop_first().update(i - 1, e));
            assert(forall|j: int|
                #![trigger s.drop_first()[j]]
                0 <= j < i - 1 ==> s.drop_first()[j] == s[j + 1]);
            lemma_doc_lookup_update(s.drop_first(), i - 1, e, k);
        }
    }
}

proof fn lemma_doc_lookup_push(s: Seq<NamedDocument>, e: NamedDocument, k: Seq<char>)
    ensures
        doc_lookup(s.push(e), k) == (if doc_lookup(s, k) is Some {
            doc_lookup(s, k)
        } else if e.service@ == k {
            Some(e.doc)
        } else {
            None
        }),
    decreases s.len(),
{
    let t = s.push(e);
    if s.len() == 0 {
        assert(t[0] == e);
        assert(t.drop_first() =~= Seq::<NamedDocument>::empty());
    } else {
        assert(t[0] == s[0]);
        assert(t.drop_first() =~= s.drop_first().push(e));
        lemma_doc_lookup_push(s.drop_first(), e, k);
    }
}

/// Stores a document under its service name: an existing document of the same
/// name is replaced in place, a new name is appended.
fn store_document(docs: &mut Vec<NamedDocument>, service: String, doc: ApiDocument)
    ensures
        doc_inserted(old(docs)@, service@, doc, final(docs)@),
{
    let ghost orig = docs@;
    let ghost gservice = service@;
    let ghost gdoc = doc;
    let mut i: usize = 0;
    while i < docs.len()
        invariant
            i <= orig.len(),
            docs@ == orig,
            orig == old(docs)@,
            service@ == gservice,
            doc == gdoc,
            forall|j: int| #![trigger orig[j]] 0 <= j < i ==> orig[j].service@ != service@,
        decreases orig.len() - i,
    {
        if crate::text::str_eq(docs[i].service.as_str(), service.as_str()) {
            let e = NamedDocument { service, doc };
            let ghost ev = e;
            docs[i] = e;
            proof {
                assert(docs@ == orig.update(i as int, ev));
                assert forall|k: Seq<char>|
                    doc_lookup(docs@, k) == (if k == ev.service@ {
                        Some(ev.doc)
                    } else {
                        doc_lookup(orig, k)
                    }) by {
                    lemma_doc_lookup_update(orig, i as int, ev, k);
                }
                assert(has_service(orig, gservice));
                assert(doc_inserted(orig, gservice, gdoc, docs@));
            }
            return;
        }
        i += 1;
    }
    let e = NamedDocument { service, doc };
    let ghost ev = e;
    docs.push(e);
    proof {
        assert(docs@ == orig.push(ev));
        assert forall|k: Seq<char>|
            doc_lookup(docs@, k) == (if doc_lookup(orig, k) is Some {
                doc_lookup(orig, k)
            } else if ev.service@ == k {
                Some(ev.doc)
            } else {
                None
            }) by {
            lemma_doc_lookup_push(orig, ev, k);
        }
        lemma_doc_lookup_has_service(orig, gservice);
        assert(!has_service(orig, gservice));
        assert(doc_inserted(orig, gservice, gdoc, docs@));
    }
}

/// `doc_lookup` finds a document exactly when some entry carries the name.
proof fn lemma_doc_lookup_has_service(docs: Seq<NamedDocument>, k: Seq<char>)
    ensures
        doc_lookup(docs, k) is Some <==> has_service(docs, k),
    decreases docs.len(),
{
    if docs.len() > 0 {
        lemma_doc_lookup_has_service(docs.drop_first(), k);
        let rest = docs.drop_first();
        if docs[0].service@ == k {
        } else {
            if has_service(docs, k) {
                let i = choose|i: int|
                    #![trigger docs[i]]
                    0 <= i < docs.len() && docs[i].service@ == k;
                assert(rest[i - 1] == docs[i]);
            }
            if has_service(rest, k) {
                let i = choose|i: int|
                    #![trigger rest[i]]
                    0 <= i < rest.len() && rest[i].service@ == k;
                assert(docs[i + 1] == rest[i]);
            }
        }
    }
}

/// The aggregator: the gateway's advertised authority, the directory the
/// documents came from, the output path, and the loaded documents keyed by
/// file stem.
pub struct OpenApiMerger {
    pub url: String,
    pub base_path: String,
    pub output_path: String,
    pub specs: Vec<NamedDocument>,
}

impl OpenApiMerger {
    /// An empty aggregator for this gateway authority, source directory and
    /// output path.
    pub fn new(url: &str, docs_path: &str, output_path: &str) -> (r: OpenApiMerger)
        ensures
            r.url@ == url@,
            r.base_path@ == docs_path@,
            r.output_path@ == output_path@,
            r.specs@.len() == 0,
    {
        OpenApiMerger {
            url: url.to_owned(),
            base_path: docs_path.to_owned(),
            output_path: output_path.to_owned(),
            specs: Vec::new(),
        }
    }

    /// Stores one loaded document under its service name, replacing a
    /// document discovered earlier under the same file stem.
    pub fn add_document(&mut self, service: String, doc: ApiDocument)
        ensures
            doc_inserted(old(self).specs@, service@, doc, final(self).specs@),
            final(self).url == old(self).url,
            final(self).base_path == old(self).base_path,
            final(self).output_path == old(self).output_path,
    {
        store_document(&mut self.specs, service, doc)
    }

    /// The documentation viewer page: a static HTML document that loads the
    /// viewer and points it at the merged document under the gateway's own
    /// authority.
    pub fn swagger_ui_html(&self) -> (r: String)
        ensures
            r@ == "<!DOCTYPE html>\n<html lang=\"en\">\n  <head>\n    <meta charset=\"UTF-8\" />\n    <meta name=\"viewport\" content=\"width=device-width, initial-scale=1.0\" />\n    <title>Swagger UI</title>\n    <link rel=\"stylesheet\" type=\"text/css\" href=\"https://cdnjs.cloudflare.com/ajax/libs/swagger-ui/4.14.0/swagger-ui.css\" />\n    <script src=\"https://cdnjs.cloudflare.com/ajax/libs/swagger-ui/4.14.0/swagger-ui-bundle.js\"></script>\n    <script src=\"https://cdnjs.cloudflare.com/ajax/libs/swagger-ui/4.14.0/swagger-ui-standalone-preset.js\"></script>\n  </head>\n  <body>\n    <div id=\"swagger-ui\"></div>\n    <script>\n      const ui = SwaggerUIBundle({\n        url: 'http://"@
                + self.url@
                + "/doc/openapi.yaml',\n        dom_id: '#swagger-ui',\n        deepLinking: true,\n        presets: [\n          SwaggerUIBundle.presets.apis,\n          SwaggerUIStandalonePreset\n        ],\n        layout: \"BaseLayout\"\n      });\n    </script>\n  </body>\n</html>\n"@,
    {
        let head = str_concat(
            "<!DOCTYPE html>\n<html lang=\"en\">\n  <head>\n    <meta charset=\"UTF-8\" />\n    <meta name=\"viewport\" content=\"width=device-width, initial-scale=1.0\" />\n    <title>Swagger UI</title>\n    <link rel=\"stylesheet\" type=\"text/css\" href=\"https://cdnjs.cloudflare.com/ajax/libs/swagger-ui/4.14.0/swagger-ui.css\" />\n    <script src=\"https://cdnjs.cloudflare.com/ajax/libs/swagger-ui/4.14.0/swagger-ui-bundle.js\"></script>\n    <script src=\"https://cdnjs.cloudflare.com/ajax/libs/swagger-ui/4.14.0/swagger-ui-standalone-preset.js\"></script>\n  </head>\n  <body>\n    <div id=\"swagger-ui\"></div>\n    <script>\n      const ui = SwaggerUIBundle({\n        url: 'http://",
            self.url.as_str(),
        );
        let page = str_concat(
            head.as_str(),
            "/doc/openapi.yaml',\n        dom_id: '#swagger-ui',\n        deepLinking: true,\n        presets: [\n          SwaggerUIBundle.presets.apis,\n          SwaggerUIStandalonePreset\n        ],\n        layout: \"BaseLayout\"\n      });\n    </script>\n  </body>\n</html>\n",
        );
        page
    }

    /// Merges the loaded documents into one: fixed descriptive fields, a
    /// single server entry for the gateway itself, every document's paths
    /// under its mount prefix, and the union of the component sections, later
    /// documents overwriting earlier ones on a name collision. Fails exactly
    /// when some document has no usable server URL, naming the first such
    /// document.
    pub fn merge(&self) -> (r: Result<MergedDocument, MergeError>)
        ensures
            r is Ok <==> (forall|i: int|
                0 <= i < self.specs@.len() ==> (#[trigger] spec_mount_prefix(
                    self.specs@[i].doc,
                )) is Some),
            match r {
                Ok(m) => {
                    &&& m.openapi@ == "3.0.0"@
                    &&& m.title@ == "API Gateway Documentation"@
                    &&& m.version@ == "1.0.0"@
                    &&& m.description@ == "Automatically merged API documentation"@
                    &&& m.server_url@ == "http://"@ + self.url@
                    &&& unique_keys(m.paths@)
                    &&& unique_keys(m.schemas@)
                    &&& unique_keys(m.security_schemes@)
                    &&& (forall|k: Seq<char>|
                        #![trigger lookup(m.paths@, k)]
                        lookup(m.paths@, k) == merged_path_lookup(self.specs@, k))
                    &&& (forall|k: Seq<char>|
                        #![trigger lookup(m.schemas@, k)]
                        lookup(m.schemas@, k) == merged_schema_lookup(self.specs@, k))
                    &&& (forall|k: Seq<char>|
                        #![trigger lookup(m.security_schemes@, k)]
                        lookup(m.security_schemes@, k) == merged_scheme_lookup(self.specs@, k))
                },
                Err(e) => exists|i: int|
                    #![trigger self.specs@[i]]
                    0 <= i < self.specs@.len() && spec_mount_prefix(self.specs@[i].doc) is None
                        && e.service@ == self.specs@[i].service@ && (forall|j: int|
                        0 <= j < i ==> (#[trigger] spec_mount_prefix(
                            self.specs@[j].doc,
                        )) is Some),
            },
    {
        let mut paths: Vec<Entry> = Vec::new();
        let mut schemas: Vec<Entry> = Vec::new();
        let mut schemes: Vec<Entry> = Vec::new();
        let ghost docs = self.specs@;
        let mut i: usize = 0;
        proof {
            assert(docs.take(0) =~= Seq::<NamedDocument>::empty());
        }
        while i < self.specs.len()
            invariant
                i <= docs.len(),
                docs == self.specs@,
                forall|j: int|
                    0 <= j < i ==> (#[trigger] spec_mount_prefix(docs[j].doc)) is Some,
                unique_keys(paths@),
                unique_keys(schemas@),
                unique_keys(schemes@),
                forall|k: Seq<char>|
                    #![trigger lookup(paths@, k)]
                    lookup(paths@, k) == merged_path_lookup(docs.take(i as int), k),
                forall|k: Seq<char>|
                    #![trigger lookup(schemas@, k)]
                    lookup(schemas@, k) == merged_schema_lookup(docs.take(i as int), k),
                forall|k: Seq<char>|
                    #![trigger lookup(schemes@, k)]
                    lookup(schemes@, k) == merged_scheme_lookup(docs.take(i as int), k),
            decreases docs.len() - i,
        {
            let d = &self.specs[i];
            let prefix = match mount_prefix(&d.doc) {
                Some(p) => p,
                None => {
                    return Err(MergeError { service: d.service.clone() });
                },
            };
            let ghost dv = docs[i as int];
            let mut j: usize = 0;
            proof {
                assert(dv.doc.paths@.take(0) =~= Seq::<Entry>::empty());
            }
            while j < d.doc.paths.len()
                invariant
                    j <= dv.doc.paths@.len(),
                    docs == self.specs@,
                    i < docs.len(),
                    dv == docs[i as int],
                    *d == dv,
                    spec_mount_prefix(dv.doc) == Some(prefix@),
                    unique_keys(paths@),
                    forall|k: Seq<char>|
                        #![trigger lookup(paths@, k)]
                        lookup(paths@, k) == (if rlookup(
                            dv.doc.paths@.take(j as int),
                            prefix@,
                            k,
                        ) is Some {
                            rlookup(dv.doc.paths@.take(j as int), prefix@, k)
                        } else {
                            merged_path_lookup(docs.take(i as int), k)
                        }),
                decreases dv.doc.paths@.len() - j,
            {
                let e = &d.doc.paths[j];
                let key = str_concat(prefix.as_str(), e.key.as_str());
                let ghost gkey = key@;
                let ghost pre = paths@;
                insert_or_replace(&mut paths, key, e.value.clone());
                proof {
                    assert(dv.doc.paths@.take(j as int + 1).drop_last() =~= dv.doc.paths@.take(
                        j as int,
                    ));
                    assert(dv.doc.paths@.take(j as int + 1).last() == dv.doc.paths@[j as int]);
                    assert(inserted(pre, gkey, dv.doc.paths@[j as int].value@, paths@));
                }
                j += 1;
            }
            proof {
                assert(dv.doc.paths@.take(dv.doc.paths@.len() as int) =~= dv.doc.paths@);
                assert(docs.take(i as int + 1).drop_last() =~= docs.take(i as int));
                assert(docs.take(i as int + 1).last() == docs[i as int]);
            }
            let mut j: usize = 0;
            proof {
                assert(dv.doc.schemas@.take(0) =~= Seq::<Entry>::empty());
            }
            while j < d.doc.schemas.len()
                invariant
                    j <= dv.doc.schemas@.len(),
                    docs == self.specs@,
                    i < docs.len(),
                    dv == docs[i as int],
                    *d == dv,
                    unique_keys(schemas@),
                    forall|k: Seq<char>|
                        #![trigger lookup(schemas@, k)]
                        lookup(schemas@, k) == (if rlookup_plain(
                            dv.doc.schemas@.take(j as int),
                            k,
                        ) is Some {
                            rlookup_plain(dv.doc.schemas@.take(j as int), k)
                        } else {
                            merged_schema_lookup(docs.take(i as int), k)
                        }),
                decreases dv.doc.schemas@.len() - j,
            {
                let e = &d.doc.schemas[j];
                let ghost pre = schemas@;
                insert_or_replace(&mut schemas, e.key.clone(), e.value.clone());
                proof {
                    assert(dv.doc.schemas@.take(j as int + 1).drop_last() =~= dv.doc.schemas@.take(
                        j as int,
                    ));
                    assert(dv.doc.schemas@.take(j as int + 1).last() == dv.doc.schemas@[j as int]);
                }
                j += 1;
            }
            proof {
                assert(dv.doc.schemas@.take(dv.doc.schemas@.len() as int) =~= dv.doc.schemas@);
            }
            let mut j: usize = 0;
            proof {
                assert(dv.doc.security_schemes@.take(0) =~= Seq::<Entry>::empty());
            }
            while j < d.doc.security_schemes.len()
                invariant
                    j <= dv.doc.security_schemes@.len(),
                    docs == self.specs@,
                    i < docs.len(),
                    dv == docs[i as int],
                    *d == dv,
                    unique_keys(schemes@),
                    forall|k: Seq<char>|
                        #![trigger lookup(schemes@, k)]
                        lookup(schemes@, k) == (if rlookup_plain(
                            dv.doc.security_schemes@.take(j as int),
                            k,
                        ) is Some {
                            rlookup_plain(dv.doc.security_schemes@.take(j as int), k)
                        } else {
                            merged_scheme_lookup(docs.take(i as int), k)
                        }),
                decreases dv.doc.security_schemes@.len() - j,
            {
                let e = &d.doc.security_schemes[j];
                let ghost pre = schemes@;
                insert_or_replace(&mut schemes, e.key.clone(), e.value.clone());
                proof {
                    assert(dv.doc.security_schemes@.take(j as int + 1).drop_last()
                        =~= dv.doc.security_schemes@.take(j as int));
                    assert(dv.doc.security_schemes@.take(j as int + 1).last()
                        == dv.doc.security_schemes@[j as int]);
                }
                j += 1;
            }
            proof {
                assert(dv.doc.security_schemes@.take(dv.doc.security_schemes@.len() as int)
                    =~= dv.doc.security_schemes@);
            }
            i += 1;
        }
        proof {
            assert(docs.take(docs.len() as int) =~= docs);
        }
        Ok(
            MergedDocument {
                openapi: "3.0.0".to_owned(),
                title: "API Gateway Documentation".to_owned(),
                version: "1.0.0".to_owned(),
                description: "Automatically merged API documentation".to_owned(),
                server_url: str_concat("http://", self.url.as_str()),
                paths,
                schemas,
                security_schemes: schemes,
            },
        )
    }
}

} // verus!
