//! Documents and their compiled form.

use crate::common::compilation::CompilableTo;
use crate::common::matcher::{
    compile_regex, regex_compiles, regex_replaced, regex_source, replace_all,
};
use crate::common::text::{ends_with, has_suffix, lemma_views_push, opt_text, views};
use crate::common::validation::{Issue, IssueView};
use crate::input::decode::{
    decode_entities, decode_lossy, host_of, html_decoded, parse_url, url_host, url_parsed,
    utf8_lossy,
};
use crate::output::output::string_clone_helper;
use crate::query::scope::ScopeContent;
use std::collections::VecDeque;
use vstd::prelude::*;
use vstd::string::StringExecFns;
use vstd::utf8::{decode_utf8, valid_utf8};

verus! {

/// Any kind of document, most often one from the Internet: bytes with
/// some metadata. It is an interim form on the way to a
/// [`CompiledDocument`].
pub struct Document {
    /// The URL of the document, if it is known. For a local document this
    /// is often its path.
    pub url: Option<String>,
    /// The bytes of the document.
    pub data: Vec<u8>,
    /// The MIME type of the document, if it is known.
    pub mime: Option<String>,
}

/// The mathematical value of a [`Document`].
pub struct DocumentView {
    pub url: Option<Seq<char>>,
    pub data: Seq<u8>,
    pub mime: Option<Seq<char>>,
}

impl View for Document {
    type V = DocumentView;

    open spec fn view(&self) -> DocumentView {
        DocumentView { url: opt_text(self.url), data: self.data@, mime: opt_text(self.mime) }
    }
}

/// A document that is in memory already, or the path of one that is yet
/// to be loaded. A reference lets the loading be left to a worker.
pub enum DocumentReference {
    /// A document that is in memory.
    Populated(Document),
    /// The path of a document that has not been loaded.
    Unpopulated(String),
}

/// A batch of document references, processed together.
pub struct DocumentReferenceBatch {
    pub documents: Vec<DocumentReference>,
}

/// A document that is ready to be scanned.
pub struct CompiledDocument {
    pub url: Option<String>,
    /// The bytes of the document, decoded lossily.
    pub raw: String,
    pub mime: Option<String>,
    /// The human-readable text of the document; the same as `raw` where
    /// the kind of the document is not recognised.
    pub text: String,
    /// The host of the URL, where there is one.
    pub domain: Option<String>,
}

/// The mathematical value of a [`CompiledDocument`].
pub struct CompiledDocumentView {
    pub url: Option<Seq<char>>,
    pub raw: Seq<char>,
    pub mime: Option<Seq<char>>,
    pub text: Seq<char>,
    pub domain: Option<Seq<char>>,
}

impl View for CompiledDocument {
    type V = CompiledDocumentView;

    open spec fn view(&self) -> CompiledDocumentView {
        CompiledDocumentView {
            url: opt_text(self.url),
            raw: self.raw@,
            mime: opt_text(self.mime),
            text: self.text@,
            domain: opt_text(self.domain),
        }
    }
}

impl CompiledDocumentView {
    /// The text of the document on the given channel.
    pub open spec fn content(self, channel: ScopeContent) -> Seq<char> {
        match channel {
            ScopeContent::Raw => self.raw,
            ScopeContent::Text => self.text,
        }
    }

    /// The text that a scope pattern is applied to: the URL, or the empty
    /// text where there is none.
    pub open spec fn url_or_empty(self) -> Seq<char> {
        match self.url {
            Some(url) => url,
            None => Seq::empty(),
        }
    }
}

/// A batch of documents.
pub struct DocumentBatch {
    pub documents: Vec<Document>,
}

/// A batch of compiled documents.
pub struct CompiledDocumentBatch {
    pub documents: Vec<CompiledDocument>,
}

/// The kinds of document whose text can be extracted.
#[derive(Copy, Clone, Debug, PartialEq, Eq, Structural)]
pub enum DocumentKind {
    Html,
    Unknown,
}

/// The pattern of an HTML tag.
pub open spec fn tag_pattern() -> Seq<char> {
    "<(.*?)>"@
}

/// The pattern of a run of two or more white-space characters.
pub open spec fn space_pattern() -> Seq<char> {
    "\\s{2,}"@
}

/// Whether the patterns that text extraction rests on compile.
pub open spec fn extraction_available() -> bool {
    regex_compiles(tag_pattern()) && regex_compiles(space_pattern())
}

/// The human-readable text of an HTML document with the given raw text:
/// each tag becomes a space, each run of white space becomes one space,
/// and the HTML entities are decoded where they all can be.
pub open spec fn extracted_text(raw: Seq<char>) -> Seq<char> {
    let stripped = regex_replaced(tag_pattern(), raw, " "@);
    let collapsed = regex_replaced(space_pattern(), stripped, " "@);
    match html_decoded(collapsed) {
        Some(decoded) => decoded,
        None => collapsed,
    }
}

impl DocumentView {
    /// A document is HTML when its MIME type is `text/html` or its URL
    /// ends with `.html`.
    pub open spec fn kind(self) -> DocumentKind {
        if self.mime == Some("text/html"@) || (self.url is Some && has_suffix(
            self.url->0,
            ".html"@,
        )) {
            DocumentKind::Html
        } else {
            DocumentKind::Unknown
        }
    }

    /// The bytes of the document, decoded lossily.
    pub open spec fn raw(self) -> Seq<char> {
        utf8_lossy(self.data)
    }

    /// The human-readable text of the document.
    pub open spec fn text(self) -> Seq<char> {
        match self.kind() {
            DocumentKind::Html => extracted_text(self.raw()),
            DocumentKind::Unknown => self.raw(),
        }
    }

    /// The host of the URL, where the URL is there, parses and has one.
    pub open spec fn domain(self) -> Option<Seq<char>> {
        match self.url {
            Some(url) => match url_parsed(url) {
                Some(serialization) => url_host(serialization),
                None => None,
            },
            None => None,
        }
    }

    /// Whether the document can be compiled: always, but for an HTML
    /// document where text extraction is not available.
    pub open spec fn compiles(self) -> bool {
        self.kind() == DocumentKind::Unknown || extraction_available()
    }

    /// What the document compiles to.
    pub open spec fn compiled(self) -> CompiledDocumentView {
        CompiledDocumentView {
            url: self.url,
            raw: self.raw(),
            mime: self.mime,
            text: self.text(),
            domain: self.domain(),
        }
    }
}

/// The compiled forms of those of `documents` that compile, in order.
pub open spec fn compiled_documents(documents: Seq<DocumentView>) -> Seq<CompiledDocumentView>
    decreases documents.len(),
{
    if documents.len() == 0 {
        Seq::empty()
    } else if documents.last().compiles() {
        compiled_documents(documents.drop_last()).push(documents.last().compiled())
    } else {
        compiled_documents(documents.drop_last())
    }
}

/// The message of the error that compiling an HTML document gives where
/// text extraction is not available.
pub open spec fn extraction_failure_message() -> Seq<char> {
    "unable to compile the text extraction patterns"@
}

/// Extracts the human-readable text of HTML documents. Building one is
/// expensive; one extractor serves any number of documents.
pub struct TextExtractor {
    tags: regex::Regex,
    spaces: regex::Regex,
}

impl TextExtractor {
    #[verifier::type_invariant]
    spec fn well_formed(self) -> bool {
        regex_source(self.tags) == tag_pattern() && regex_source(self.spaces) == space_pattern()
    }

    /// Compiles the patterns of tags and of white space.
    pub fn new() -> (r: Result<TextExtractor, Issue>)
        ensures
            r is Ok <==> extraction_available(),
            r matches Err(issue) ==> issue@ == IssueView::Error(extraction_failure_message()),
    {
        let tags = match compile_regex("<(.*?)>") {
            Ok(regex) => regex,
            Err(_) => return Err(Issue::error("unable to compile the text extraction patterns")),
        };
        let spaces = match compile_regex("\\s{2,}") {
            Ok(regex) => regex,
            Err(_) => return Err(Issue::error("unable to compile the text extraction patterns")),
        };
        Ok(TextExtractor { tags, spaces })
    }

    /// The human-readable text of an HTML document with the raw text
    /// `raw`.
    pub fn extract(&self, raw: &str) -> (r: String)
        ensures
            r@ == extracted_text(raw@),
    {
        proof {
            use_type_invariant(self);
        }
        let stripped = replace_all(&self.tags, raw, " ");
        let collapsed = replace_all(&self.spaces, stripped.as_str(), " ");
        match decode_entities(collapsed.as_str()) {
            Ok(value) => value,
            Err(_) => collapsed,
        }
    }
}

impl Document {
    /// Tells the kind of the document from its MIME type and its URL.
    pub fn detect_document_kind(&self) -> (r: DocumentKind)
        ensures
            r == self@.kind(),
    {
        let mut is_html = match &self.mime {
            Some(value) => {
                let html = String::from_str("text/html");
                *value == html
            },
            None => false,
        };
        match &self.url {
            Some(value) => {
                if ends_with(value.as_str(), ".html") {
                    is_html = true;
                }
            },
            None => (),
        };
        if is_html {
            return DocumentKind::Html;
        }
        DocumentKind::Unknown
    }

    /// The host name of the URL of the document: nothing where there is no
    /// URL, where it does not parse as an absolute URL, or where it has no
    /// host.
    pub fn domain(&self) -> (r: Option<String>)
        ensures
            opt_text(r) == self@.domain(),
    {
        let own_url = match &self.url {
            Some(value) => value,
            None => return None,
        };
        let parsed_url = match parse_url(own_url.as_str()) {
            Ok(url) => url,
            Err(_) => return None,
        };
        host_of(&parsed_url)
    }

    /// The bytes of the document decoded as UTF-8, with the replacement
    /// character in place of what does not decode. Valid UTF-8 decodes to
    /// the text that it encodes.
    pub fn raw(&self) -> (r: String)
        ensures
            r@ == self@.raw(),
            valid_utf8(self@.data) ==> r@ == decode_utf8(self@.data),
    {
        decode_lossy(self.data.as_slice())
    }

    /// The human-readable text of the document: that of `extractor` for an
    /// HTML document, the raw text for any other.
    pub fn extract_document_text(&self, extractor: &TextExtractor) -> (r: String)
        ensures
            r@ == self@.text(),
    {
        match self.detect_document_kind() {
            DocumentKind::Html => {
                let raw = self.raw();
                extractor.extract(raw.as_str())
            },
            DocumentKind::Unknown => self.raw(),
        }
    }

    /// Compiles the document with an extractor that is there already.
    pub fn compile_with(&self, extractor: &TextExtractor) -> (r: CompiledDocument)
        ensures
            r@ == self@.compiled(),
            valid_utf8(self@.data) ==> r@.raw == decode_utf8(self@.data),
    {
        let text = self.extract_document_text(extractor);
        let domain = self.domain();
        let raw = self.raw();
        CompiledDocument {
            url: string_clone_helper(&self.url),
            raw,
            mime: string_clone_helper(&self.mime),
            text,
            domain,
        }
    }

    /// Compiles a document whose kind is not recognised: its text is its
    /// raw text.
    fn compile_plain(&self) -> (r: CompiledDocument)
        requires
            self@.kind() == DocumentKind::Unknown,
        ensures
            r@ == self@.compiled(),
            valid_utf8(self@.data) ==> r@.raw == decode_utf8(self@.data),
    {
        let raw = self.raw();
        let text = raw.clone();
        CompiledDocument {
            url: string_clone_helper(&self.url),
            raw,
            mime: string_clone_helper(&self.mime),
            text,
            domain: self.domain(),
        }
    }
}

impl Clone for Document {
    fn clone(&self) -> (r: Document)
        ensures
            r@ == self@,
    {
        Document {
            url: string_clone_helper(&self.url),
            data: self.data.clone(),
            mime: string_clone_helper(&self.mime),
        }
    }
}

impl CompilableTo<CompiledDocument> for Document {
    /// Decodes the bytes, extracts the text and the domain. Fails only for
    /// an HTML document where text extraction is not available. Bytes that
    /// are valid UTF-8 decode to the text that they encode; so a document
    /// without bytes has an empty raw text, and an empty text where its
    /// kind is not recognised.
    fn compile(&self) -> (r: Result<CompiledDocument, Issue>)
        ensures
            r is Ok <==> self@.compiles(),
            r matches Ok(compiled) ==> compiled@ == self@.compiled(),
            r matches Ok(compiled) ==> (valid_utf8(self@.data) ==> compiled@.raw == decode_utf8(
                self@.data,
            )),
            r matches Ok(compiled) ==> (self@.data.len() == 0 ==> compiled@.raw.len() == 0 && (
            self@.kind() == DocumentKind::Unknown ==> compiled@.text.len() == 0)),
            r matches Err(issue) ==> issue@ == IssueView::Error(extraction_failure_message()),
    {
        match self.detect_document_kind() {
            DocumentKind::Unknown => Ok(self.compile_plain()),
            DocumentKind::Html => match TextExtractor::new() {
                Ok(extractor) => Ok(self.compile_with(&extractor)),
                Err(issue) => Err(issue),
            },
        }
    }
}

impl CompiledDocument {
    /// The text of the document on the given channel: the raw text for
    /// `Raw`, the extracted text for `Text`.
    pub fn content(&self, content: ScopeContent) -> (r: &String)
        ensures
            r@ == self@.content(content),
    {
        match content {
            ScopeContent::Raw => &self.raw,
            ScopeContent::Text => &self.text,
        }
    }
}

impl CompilableTo<CompiledDocumentBatch> for DocumentBatch {
    /// Compiles each document of the batch, in order, with one extractor
    /// for them all. A document that does not compile is left out; the
    /// batch itself always compiles.
    fn compile(&self) -> (r: Result<CompiledDocumentBatch, Issue>)
        ensures
            r is Ok,
            r matches Ok(batch) ==> views(batch.documents@) == compiled_documents(
                views(self.documents@),
            ),
    {
        let extractor = TextExtractor::new();
        let mut ready: Vec<CompiledDocument> = Vec::new();
        let ghost documents = views(self.documents@);
        let mut i: usize = 0;
        while i < self.documents.len()
            invariant
                i <= self.documents@.len(),
                documents == views(self.documents@),
                extractor is Ok <==> extraction_available(),
                views(ready@) == compiled_documents(documents.take(i as int)),
            decreases self.documents@.len() - i,
        {
            let document = &self.documents[i];
            proof {
                assert(documents.take(i + 1).drop_last() =~= documents.take(i as int));
            }
            match document.detect_document_kind() {
                DocumentKind::Unknown => {
                    let compiled_document = document.compile_plain();
                    proof {
                        lemma_views_push(ready@, compiled_document);
                    }
                    ready.push(compiled_document);
                },
                DocumentKind::Html => match &extractor {
                    Ok(extractor) => {
                        let compiled_document = document.compile_with(extractor);
                        proof {
                            lemma_views_push(ready@, compiled_document);
                        }
                        ready.push(compiled_document);
                    },
                    Err(_) => {},
                },
            }
            i = i + 1;
        }
        assert(documents.take(i as int) =~= documents);
        Ok(CompiledDocumentBatch { documents: ready })
    }
}

impl From<Vec<Document>> for DocumentBatch {
    fn from(docs: Vec<Document>) -> (r: DocumentBatch) {
        DocumentBatch { documents: docs }
    }
}

impl vstd::std_specs::convert::FromSpecImpl<Vec<Document>> for DocumentBatch {
    open spec fn obeys_from_spec() -> bool {
        true
    }

    open spec fn from_spec(docs: Vec<Document>) -> DocumentBatch {
        DocumentBatch { documents: docs }
    }
}

impl From<Vec<DocumentReference>> for DocumentReferenceBatch {
    fn from(docs: Vec<DocumentReference>) -> (r: DocumentReferenceBatch) {
        DocumentReferenceBatch { documents: docs }
    }
}

impl vstd::std_specs::convert::FromSpecImpl<Vec<DocumentReference>> for DocumentReferenceBatch {
    open spec fn obeys_from_spec() -> bool {
        true
    }

    open spec fn from_spec(docs: Vec<DocumentReference>) -> DocumentReferenceBatch {
        DocumentReferenceBatch { documents: docs }
    }
}

/// The document that a reference stands for, given what loading its path
/// gave: a populated reference stands for its document, an unpopulated
/// one for what was loaded, if anything was.
pub open spec fn resolved_one(reference: DocumentReference, loaded: Option<Document>) -> Option<
    Document,
> {
    match reference {
        DocumentReference::Populated(document) => Some(document),
        DocumentReference::Unpopulated(_) => loaded,
    }
}

/// What loading gave for the reference at position `i`: nothing, where
/// `loaded` has no such position.
pub open spec fn loaded_at(loaded: Seq<Option<Document>>, i: int) -> Option<Document> {
    if 0 <= i < loaded.len() {
        loaded[i]
    } else {
        None
    }
}

/// The documents that `references` stand for, in order, given what
/// loading gave for each position. A reference whose document could not
/// be loaded is left out.
pub open spec fn resolved(
    references: Seq<DocumentReference>,
    loaded: Seq<Option<Document>>,
) -> Seq<Document>
    decreases references.len(),
{
    if references.len() == 0 {
        Seq::empty()
    } else {
        let rest = resolved(references.drop_last(), loaded);
        match resolved_one(references.last(), loaded_at(loaded, references.len() - 1)) {
            Some(document) => rest.push(document),
            None => rest,
        }
    }
}

impl Document {
    /// The document that was loaded from the file at `path`: its URL is
    /// the path, its MIME type is not known.
    pub fn from_file(path: &String, contents: Vec<u8>) -> (r: Document)
        ensures
            r@ == (DocumentView { url: Some(path@), data: contents@, mime: None }),
    {
        Document { data: contents, mime: None, url: Some(path.clone()) }
    }
}

impl DocumentReference {
    /// The path that is to be loaded for this reference, if it is not
    /// populated.
    pub fn path(&self) -> (r: Option<&String>)
        ensures
            match *self {
                DocumentReference::Populated(_) => r is None,
                DocumentReference::Unpopulated(path) => r == Some(&path),
            },
    {
        match self {
            DocumentReference::Populated(_) => None,
            DocumentReference::Unpopulated(path) => Some(path),
        }
    }
}

impl DocumentReferenceBatch {
    /// Turns the references into documents. `loaded` holds, for each
    /// position, what loading the path at that position gave; it is read
    /// for the unpopulated references only. A reference whose document
    /// could not be loaded is skipped.
    pub fn resolve(self, loaded: Vec<Option<Document>>) -> (r: DocumentBatch)
        ensures
            r.documents@ == resolved(self.documents@, loaded@),
    {
        let mut references = self.documents;
        let mut loaded = loaded;
        let ghost all_references = references@;
        let ghost all_loaded = loaded@;
        while loaded.len() > references.len()
            invariant
                references@ == all_references,
                loaded@.len() <= all_loaded.len(),
                loaded@ == all_loaded.take(loaded@.len() as int),
                loaded@.len() >= references@.len() || loaded@.len() == all_loaded.len(),
            decreases loaded@.len(),
        {
            loaded.pop();
        }
        let mut found: VecDeque<Document> = VecDeque::new();
        while references.len() > 0
            invariant
                references@.len() <= all_references.len(),
                references@ == all_references.take(references@.len() as int),
                loaded@.len() <= all_loaded.len(),
                loaded@ == all_loaded.take(loaded@.len() as int),
                loaded@.len() == references@.len() || (loaded@.len() == all_loaded.len()
                    && loaded@.len() < references@.len()),
                resolved(all_references, all_loaded) == resolved(references@, all_loaded) + found@,
            decreases references@.len(),
        {
            let n = references.len();
            let slot = if loaded.len() == n {
                match loaded.pop() {
                    Some(slot) => slot,
                    None => None,
                }
            } else {
                None
            };
            let document = match references.pop() {
                Some(DocumentReference::Populated(document)) => Some(document),
                Some(DocumentReference::Unpopulated(_)) => slot,
                None => None,
            };
            if let Some(document) = document {
                found.push_front(document);
            }
        }
        let mut documents: Vec<Document> = Vec::new();
        let ghost wanted = found@;
        while found.len() > 0
            invariant
                documents@ + found@ == wanted,
            decreases found@.len(),
        {
            if let Some(document) = found.pop_front() {
                documents.push(document);
            }
        }
        DocumentBatch { documents }
    }
}

/// The number of documents in a batch, where nothing else is asked for.
pub const DEFAULT_BATCH_SIZE: usize = 64;

/// Collects document references into batches of a given size.
pub struct ReferenceBatcher {
    size: usize,
    current: Vec<DocumentReference>,
}

/// The mathematical value of a [`ReferenceBatcher`].
pub struct ReferenceBatcherView {
    /// The number of references at which a batch is full.
    pub size: nat,
    /// The references that wait for their batch to fill.
    pub current: Seq<DocumentReference>,
}

impl View for ReferenceBatcher {
    type V = ReferenceBatcherView;

    closed spec fn view(&self) -> ReferenceBatcherView {
        ReferenceBatcherView { size: self.size as nat, current: self.current@ }
    }
}

impl ReferenceBatcher {
    /// A batcher without references, for batches of `size` references. A
    /// size below one gives batches of one.
    pub fn new(size: usize) -> (r: ReferenceBatcher)
        ensures
            r@ == (ReferenceBatcherView { size: size as nat, current: Seq::empty() }),
    {
        ReferenceBatcher { size, current: Vec::new() }
    }

    /// Adds a reference. Once `size` references wait, they leave as one
    /// batch, in the order in which they came.
    pub fn push(&mut self, reference: DocumentReference) -> (r: Option<DocumentReferenceBatch>)
        ensures
            final(self)@.size == old(self)@.size,
            r is Some <==> old(self)@.current.len() + 1 >= old(self)@.size,
            match r {
                Some(batch) => batch.documents@ == old(self)@.current.push(reference)
                    && final(self)@.current == Seq::<DocumentReference>::empty(),
                None => final(self)@.current == old(self)@.current.push(reference),
            },
    {
        self.current.push(reference);
        if self.current.len() >= self.size {
            let mut documents: Vec<DocumentReference> = Vec::new();
            documents.append(&mut self.current);
            Some(DocumentReferenceBatch { documents })
        } else {
            None
        }
    }

    /// Ends the collecting: the references that still wait leave as a
    /// last batch, if there are any.
    pub fn finish(self) -> (r: Option<DocumentReferenceBatch>)
        ensures
            r is Some <==> self@.current.len() > 0,
            r matches Some(batch) ==> batch.documents@ == self@.current,
    {
        if self.current.len() != 0 {
            Some(DocumentReferenceBatch { documents: self.current })
        } else {
            None
        }
    }
}

} // verus!
