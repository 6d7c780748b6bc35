//! Documents, and the pairing of a document with its request path.

use super::url_path::{is_valid_url_path, UrlPath, UrlPathError};
use html_editor::Node;
use vstd::prelude::*;
use vstd::string::StringExecFns;

verus! {

/// A document that can be asked for. There is one kind today, a parsed HTML
/// tree; code that looks into a document matches on the kind.
#[derive(Debug)]
pub enum RequestableDoc {
    /// The first top-level node of a parsed HTML text, with all below it.
    HtmlNode(Node),
}

impl Clone for RequestableDoc {
    fn clone(&self) -> (copy: Self)
        ensures
            copy == *self,
    {
        match self {
            RequestableDoc::HtmlNode(node) => RequestableDoc::HtmlNode(node.clone()),
        }
    }
}

/// The message for a text that was parsed and holds no node, of which no
/// document can be made.
pub open spec fn no_node_message() -> Seq<char> {
    "The HTML text holds no node"@
}

impl RequestableDoc {
    /// What a parsed HTML text gives: its first top-level node as the
    /// document, the parser's message where it was not parsed, and
    /// `no_node_message` where it holds no node.
    pub open spec fn of_html(parsed_html: Result<Seq<Node>, Seq<char>>) -> Result<
        RequestableDoc,
        Seq<char>,
    > {
        match parsed_html {
            Ok(nodes) => if nodes.len() == 0 {
                Err(no_node_message())
            } else {
                Ok(RequestableDoc::HtmlNode(nodes[0]))
            },
            Err(message) => Err(message),
        }
    }

    /// Makes a document of what the HTML parser returned for a text. The
    /// first top-level node becomes the document; later ones are left out. A
    /// text without any node is refused like one that was not parsed.
    pub fn from_html(parsed_html: Result<Vec<Node>, String>) -> (result: Result<Self, String>)
        ensures
            document_view(result) == Self::of_html(parsed_view(parsed_html)),
    {
        match parsed_html {
            Ok(nodes) => if nodes.len() == 0 {
                Err(String::from_str("The HTML text holds no node"))
            } else {
                Ok(RequestableDoc::HtmlNode(nodes[0].clone()))
            },
            Err(message) => Err(message),
        }
    }
}

/// A document or a message, with the message as characters.
pub open spec fn document_view(result: Result<RequestableDoc, String>) -> Result<
    RequestableDoc,
    Seq<char>,
> {
    match result {
        Ok(document) => Ok(document),
        Err(message) => Err(message@),
    }
}

/// What the HTML parser returned, with the nodes as a sequence and the
/// message as characters.
pub open spec fn parsed_view(parsed_html: Result<Vec<Node>, String>) -> Result<
    Seq<Node>,
    Seq<char>,
> {
    match parsed_html {
        Ok(nodes) => Ok(nodes@),
        Err(message) => Err(message@),
    }
}

/// A document with the path it was asked for at: what a policy is evaluated
/// on. It does not change once it is built.
#[derive(Debug)]
pub struct DocumentAndPath {
    document: RequestableDoc,
    url_path: UrlPath,
}

/// Why no `DocumentAndPath` could be built.
#[derive(Debug)]
pub enum DocumentAndPathError {
    /// The path text is no request path; it is carried unchanged.
    UrlPathInvalidFormat(String),
    /// Built from two texts: the refused path text where the path was
    /// refused, and the parser's message where the HTML was.
    UrlPathOrHtmlError((Option<String>, Option<String>)),
}

/// `DocumentAndPathError` with its texts as character sequences.
pub enum DocumentAndPathErrorView {
    UrlPathInvalidFormat(Seq<char>),
    UrlPathOrHtmlError(Option<Seq<char>>, Option<Seq<char>>),
}

/// An optional text as optional characters.
pub open spec fn text_view(text: Option<String>) -> Option<Seq<char>> {
    match text {
        Some(text) => Some(text@),
        None => None,
    }
}

impl View for DocumentAndPathError {
    type V = DocumentAndPathErrorView;

    open spec fn view(&self) -> DocumentAndPathErrorView {
        match self {
            DocumentAndPathError::UrlPathInvalidFormat(refused) => {
                DocumentAndPathErrorView::UrlPathInvalidFormat(refused@)
            },
            DocumentAndPathError::UrlPathOrHtmlError(causes) => {
                DocumentAndPathErrorView::UrlPathOrHtmlError(
                    text_view(causes.0),
                    text_view(causes.1),
                )
            },
        }
    }
}

/// What building from a parsed HTML text and a path text gives: the
/// document and the path where both are good, else every cause of failure,
/// the refused path text first and second the message why the HTML gives no
/// document.
pub open spec fn built_from_html(
    parsed_html: Result<Seq<Node>, Seq<char>>,
    path: Seq<char>,
) -> Result<(RequestableDoc, Seq<char>), DocumentAndPathErrorView> {
    match (is_valid_url_path(path), RequestableDoc::of_html(parsed_html)) {
        (true, Ok(document)) => Ok((document, path)),
        (false, Ok(_)) => Err(DocumentAndPathErrorView::UrlPathOrHtmlError(Some(path), None)),
        (false, Err(message)) => Err(
            DocumentAndPathErrorView::UrlPathOrHtmlError(Some(path), Some(message)),
        ),
        (true, Err(message)) => Err(
            DocumentAndPathErrorView::UrlPathOrHtmlError(None, Some(message)),
        ),
    }
}

/// Every cause of failure is reported. With a bad path and a bad HTML text
/// the error carries both, the one beside the other; with one of them bad it
/// carries that one and nothing for the other; with both good there is no
/// error. An HTML text is bad where the parser refused it, and where it
/// holds no node.
pub proof fn lemma_every_cause_is_reported(
    parsed_html: Result<Seq<Node>, Seq<char>>,
    path: Seq<char>,
)
    ensures
        built_from_html(parsed_html, path) is Ok <==> is_valid_url_path(path)
            && RequestableDoc::of_html(parsed_html) is Ok,
        RequestableDoc::of_html(parsed_html) is Ok <==> (parsed_html matches Ok(nodes)
            && nodes.len() > 0),
        parsed_html matches Err(message) ==> RequestableDoc::of_html(parsed_html) == Err::<
            RequestableDoc,
            Seq<char>,
        >(message),
        !is_valid_url_path(path) && RequestableDoc::of_html(parsed_html) is Err
            ==> built_from_html(parsed_html, path) == Err::<
            (RequestableDoc, Seq<char>),
            DocumentAndPathErrorView,
        >(
            DocumentAndPathErrorView::UrlPathOrHtmlError(
                Some(path),
                Some(RequestableDoc::of_html(parsed_html)->Err_0),
            ),
        ),
        !is_valid_url_path(path) && RequestableDoc::of_html(parsed_html) is Ok
            ==> built_from_html(parsed_html, path) == Err::<
            (RequestableDoc, Seq<char>),
            DocumentAndPathErrorView,
        >(DocumentAndPathErrorView::UrlPathOrHtmlError(Some(path), None)),
        is_valid_url_path(path) && RequestableDoc::of_html(parsed_html) is Err
            ==> built_from_html(parsed_html, path) == Err::<
            (RequestableDoc, Seq<char>),
            DocumentAndPathErrorView,
        >(
            DocumentAndPathErrorView::UrlPathOrHtmlError(
                None,
                Some(RequestableDoc::of_html(parsed_html)->Err_0),
            ),
        ),
{
}

/// What building from a document and a path text gives.
pub open spec fn built_from_doc(document: RequestableDoc, path: Seq<char>) -> Result<
    (RequestableDoc, Seq<char>),
    DocumentAndPathErrorView,
> {
    if is_valid_url_path(path) {
        Ok((document, path))
    } else {
        Err(DocumentAndPathErrorView::UrlPathInvalidFormat(path))
    }
}

/// The result of a construction, with the value by its parts and the error
/// by its view.
pub open spec fn built_view(result: Result<DocumentAndPath, DocumentAndPathError>) -> Result<
    (RequestableDoc, Seq<char>),
    DocumentAndPathErrorView,
> {
    match result {
        Ok(built) => Ok((built.document(), built.path())),
        Err(error) => Err(error@),
    }
}

impl DocumentAndPath {
    /// The document.
    pub closed spec fn document(&self) -> RequestableDoc {
        self.document
    }

    /// The text of the request path.
    pub closed spec fn path(&self) -> Seq<char> {
        self.url_path@
    }

    /// Pairs a copy of `document` with the path that `path` spells.
    pub fn new_from_doc_and_path_str(document: &RequestableDoc, path: &str) -> (result: Result<
        DocumentAndPath,
        DocumentAndPathError,
    >)
        ensures
            built_view(result) == built_from_doc(*document, path@),
    {
        match UrlPath::new(path) {
            Ok(url_path) => Ok(DocumentAndPath { document: document.clone(), url_path }),
            Err(UrlPathError::InvalidFormat(refused)) => Err(
                DocumentAndPathError::UrlPathInvalidFormat(refused),
            ),
        }
    }

    /// Pairs the document that `parsed_html` holds with the path that `path`
    /// spells. `parsed_html` is what the HTML parser returned for the
    /// request's text. Both are looked at whatever the other is: where both
    /// are bad the error carries both causes, where one is, that one alone.
    /// A text that holds no node gives no document, and is reported as a bad
    /// HTML text with a message of its own.
    pub fn new_from_html_and_path_str(
        parsed_html: Result<Vec<Node>, String>,
        path: &str,
    ) -> (result: Result<DocumentAndPath, DocumentAndPathError>)
        ensures
            built_view(result) == built_from_html(parsed_view(parsed_html), path@),
    {
        let url_path = UrlPath::new(path);
        match (url_path, RequestableDoc::from_html(parsed_html)) {
            (Ok(url_path), Ok(document)) => Ok(DocumentAndPath { document, url_path }),
            (Err(UrlPathError::InvalidFormat(refused)), Ok(_)) => Err(
                DocumentAndPathError::UrlPathOrHtmlError((Some(refused), None)),
            ),
            (Err(UrlPathError::InvalidFormat(refused)), Err(message)) => Err(
                DocumentAndPathError::UrlPathOrHtmlError((Some(refused), Some(message))),
            ),
            (Ok(_), Err(message)) => Err(
                DocumentAndPathError::UrlPathOrHtmlError((None, Some(message))),
            ),
        }
    }

    /// Pairs a copy of `document` with a copy of `url_path`.
    pub fn new(document: &RequestableDoc, url_path: &UrlPath) -> (built: DocumentAndPath)
        ensures
            built.document() == *document,
            built.path() == url_path@,
    {
        DocumentAndPath { document: document.clone(), url_path: url_path.clone() }
    }

    /// The document.
    pub fn get_document(&self) -> (document: &RequestableDoc)
        ensures
            *document == self.document(),
    {
        &self.document
    }

    /// The request path.
    pub fn get_url_path(&self) -> (url_path: &UrlPath)
        ensures
            url_path@ == self.path(),
    {
        &self.url_path
    }

    /// The text of the request path.
    pub fn get_url_path_as_str(&self) -> (path: &str)
        ensures
            path@ == self.path(),
            is_valid_url_path(path@),
    {
        self.url_path.get_path()
    }
}

impl Clone for DocumentAndPath {
    fn clone(&self) -> (copy: Self)
        ensures
            copy.document() == self.document(),
            copy.path() == self.path(),
    {
        DocumentAndPath { document: self.document.clone(), url_path: self.url_path.clone() }
    }
}

} // verus!
