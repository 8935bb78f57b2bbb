//! The root parser: consumes a markup token stream, dispatches on tag
//! names to build the document root, and reports structural errors. The
//! token semantics are a total step function over plain token values, so
//! the whole parse is specified exactly; the tokenizer itself is an
//! external collaborator reached through one trusted wrapper.

use vstd::prelude::*;
use xmlparser::{Token as T, ElementEnd as E};
use crate::attributes::Attributes;
use crate::raw::Context;
use crate::render::RenderOptions;
use crate::strings::{str_eq, is_space_char};

verus! {

/// A parse error: an element not allowed in its context, reported with its
/// byte position, or a structurally malformed document.
#[derive(Debug, PartialEq, Eq, Structural)]
pub enum ParserError {
    /// The tag at this byte position is not a member of the context's
    /// allowed-child set.
    UnexpectedElement(usize),
    /// The stream is structurally malformed.
    InvalidFormat,
}

/// How an element's opening tag ended.
pub enum EndKind {
    /// `>`: the element's children follow.
    Open,
    /// `</name>`: the element closed.
    Close,
    /// `/>`: the element is empty.
    Empty,
}

/// One markup token, as plain values.
pub enum RawToken {
    /// An opening tag name, with its byte position.
    ElementStart {
        /// The tag name.
        local: String,
        /// Byte position of the name.
        start: usize
    },
    /// One attribute of the current opening tag.
    Attribute {
        /// The attribute name.
        local: String,
        /// The attribute value, verbatim.
        value: String
    },
    /// The end of an opening tag, a closing tag, or a self-closing tag.
    ElementEnd {
        /// Which of the three it is.
        kind: EndKind
    },
    /// Text between tags.
    Text {
        /// The text, verbatim.
        text: String
    },
    /// A comment.
    Comment {
        /// The comment text.
        text: String
    },
    /// A token kind the root parser has no use for.
    Other,
    /// A tokenizer error.
    Error,
}

/// Declares `xmlparser::Tokenizer`, the external collaborator delivering
/// the token stream, so it can appear in signatures; it stays opaque.
#[verifier::external_type_specification]
#[verifier::external_body]
pub struct ExTokenizer<'a>(xmlparser::Tokenizer<'a>);

/// Declares `xmlparser::Token`, carried only inside the trusted wrapper.
#[verifier::external_type_specification]
#[verifier::external_body]
pub struct ExToken<'a>(xmlparser::Token<'a>);

/// Declares `xmlparser::Error`, carried only inside the trusted wrapper.
#[verifier::external_type_specification]
#[verifier::external_body]
pub struct ExError(xmlparser::Error);

/// Relies on `xmlparser::Tokenizer`'s `Iterator` impl: each call yields
/// the next token of the document, or nothing at its end. The token is
/// converted to plain values; kinds the root parser never dispatches on
/// collapse to one variant.
#[verifier::external_body]
fn next_raw_token(t: &mut xmlparser::Tokenizer) -> (r: Option<RawToken>) {
    t.next().map(|res| match res {
        Ok(T::ElementStart { local, .. }) => RawToken::ElementStart { local: local.to_string(), start: local.start() },
        Ok(T::Attribute { local, value, .. }) => RawToken::Attribute { local: local.to_string(), value: value.to_string() },
        Ok(T::ElementEnd { end, .. }) => RawToken::ElementEnd { kind: match end { E::Open => EndKind::Open, E::Close(..) => EndKind::Close, E::Empty => EndKind::Empty } },
        Ok(T::Text { text }) => RawToken::Text { text: text.to_string() },
        Ok(T::Comment { text, .. }) => RawToken::Comment { text: text.to_string() },
        Ok(_) => RawToken::Other,
        Err(_) => RawToken::Error,
    })
}

/// Reads every remaining token of the stream, in order. Every real
/// document ends long before the iteration bound, which only serves the
/// termination argument: each token covers at least one byte of input.
pub fn drain_tokens(tokenizer: &mut xmlparser::Tokenizer) -> Vec<RawToken> {
    let mut out: Vec<RawToken> = Vec::new();
    let mut fuel: usize = usize::MAX;
    while fuel > 0
        decreases fuel,
    {
        match next_raw_token(tokenizer) {
            Some(t) => out.push(t),
            None => {
                return out;
            },
        }
        fuel = fuel - 1;
    }
    out
}

/// The document head: its attributes; its contents are assembled by an
/// external collaborator.
pub struct MJHead {
    /// The head's attributes.
    pub attributes: Attributes,
}

impl MJHead {
    /// An empty head, used until the document declares one.
    pub fn empty() -> (r: MJHead)
        ensures
            r.attributes@ == Map::<Seq<char>, Seq<char>>::empty(),
    {
        MJHead { attributes: Attributes::new() }
    }
}

/// The document body: its attributes; its contents are assembled by an
/// external collaborator.
pub struct MJBody {
    /// The body's attributes.
    pub attributes: Attributes,
}

impl MJBody {
    /// An empty body, used when the document declares none.
    pub fn empty() -> (r: MJBody)
        ensures
            r.attributes@ == Map::<Seq<char>, Seq<char>>::empty(),
    {
        MJBody { attributes: Attributes::new() }
    }
}

/// The document root: the `mjml` element with its head and body.
pub struct MJMLElement {
    /// Layout state of the root; fixed at the default by the builder.
    pub context: Option<Context>,
    /// The document head.
    pub head: MJHead,
    /// The document body.
    pub body: MJBody,
}

/// Abstract content of a parsed document root.
pub struct MjmlView {
    /// The root's attributes.
    pub attributes: Map<Seq<char>, Seq<char>>,
    /// The head's attributes; empty when the document declared no head.
    pub head: Map<Seq<char>, Seq<char>>,
    /// The body's attributes; empty when the document declared no body.
    pub body: Map<Seq<char>, Seq<char>>,
}

impl View for MJMLElement {
    type V = MjmlView;

    open spec fn view(&self) -> MjmlView {
        MjmlView { attributes: Map::empty(), head: self.head.attributes@, body: self.body.attributes@ }
    }
}

/// Accumulator for one document root while its tokens are consumed.
pub struct MJMLElementParser {
    breakpoint: u32,
    context: Option<Context>,
    attributes: Attributes,
    head: Option<MJHead>,
    body: Option<MJBody>,
}

/// Abstract content of a parser accumulator.
pub struct ParserView {
    /// The root's attributes read so far.
    pub attributes: Map<Seq<char>, Seq<char>>,
    /// The head's attributes, once a head was read.
    pub head: Option<Map<Seq<char>, Seq<char>>>,
    /// The body's attributes, once a body was read.
    pub body: Option<Map<Seq<char>, Seq<char>>>,
}

impl View for MJMLElementParser {
    type V = ParserView;

    closed spec fn view(&self) -> ParserView {
        ParserView {
            attributes: self.attributes@,
            head: match self.head {
                Some(h) => Some(h.attributes@),
                None => None,
            },
            body: match self.body {
                Some(b) => Some(b.attributes@),
                None => None,
            },
        }
    }
}

/// The root a finished accumulator builds: absent head and body fall back
/// to their empty defaults.
pub open spec fn spec_build(p: ParserView) -> MjmlView {
    MjmlView {
        attributes: Map::empty(),
        head: match p.head {
            Some(h) => h,
            None => Map::empty(),
        },
        body: match p.body {
            Some(b) => b,
            None => Map::empty(),
        },
    }
}

impl MJMLElementParser {
    /// A fresh accumulator for one document root.
    pub fn new(options: &RenderOptions) -> (r: MJMLElementParser)
        ensures
            r@ == (ParserView {
                attributes: Map::<Seq<char>, Seq<char>>::empty(),
                head: None,
                body: None,
            }),
    {
        MJMLElementParser {
            breakpoint: options.breakpoint,
            context: None,
            attributes: Attributes::new(),
            head: None,
            body: None,
        }
    }

    /// Finishes the root: an absent head or body falls back to its empty
    /// default, and the root receives the default layout context.
    pub fn build(self) -> (r: Result<MJMLElement, ParserError>)
        ensures
            r is Ok,
            r.unwrap()@ == spec_build(self@),
            r.unwrap().context is Some,
    {
        let head = match self.head {
            Some(h) => h,
            None => MJHead::empty(),
        };
        let body = match self.body {
            Some(b) => b,
            None => MJBody::empty(),
        };
        Ok(MJMLElement { context: Some(Context::default()), head, body })
    }

    /// A comment between the root's children is ignored.
    pub fn parse_child_comment(&mut self) -> (r: Result<(), ParserError>)
        ensures
            r is Ok,
            *final(self) == *old(self),
    {
        Ok(())
    }

    /// Dispatches a child tag of the root: the head and body tags are the
    /// allowed-child set; anything else is an unexpected element at its
    /// position. Returns whether the child is the head.
    pub fn parse_child_element(&self, tag: &str, start: usize) -> (r: Result<bool, ParserError>)
        ensures
            tag@ == "mj-head"@ ==> r == Ok::<bool, ParserError>(true),
            tag@ != "mj-head"@ && tag@ == "mj-body"@ ==> r == Ok::<bool, ParserError>(false),
            tag@ != "mj-head"@ && tag@ != "mj-body"@ ==> r == Err::<bool, ParserError>(
                ParserError::UnexpectedElement(start),
            ),
    {
        if str_eq(tag, "mj-head") {
            Ok(true)
        } else if str_eq(tag, "mj-body") {
            Ok(false)
        } else {
            Err(ParserError::UnexpectedElement(start))
        }
    }
}

/// Whether a text token holds only whitespace, and may therefore appear
/// between the root's children.
pub open spec fn all_ws(s: Seq<char>) -> bool {
    forall|i: int| 0 <= i < s.len() ==> is_space_char(s[i])
}

fn exec_all_ws(s: &str) -> (r: bool)
    ensures
        r == all_ws(s@),
{
    let n = s.unicode_len();
    let mut i: usize = 0;
    while i < n
        invariant
            n == s@.len(),
            i <= n,
            forall|j: int| 0 <= j < i ==> is_space_char(s@[j]),
        decreases n - i,
    {
        if !crate::strings::exec_is_space(s.get_char(i)) {
            return false;
        }
        i = i + 1;
    }
    true
}

/// The parser's control state between two tokens.
pub enum ParseState {
    /// Before the root's opening tag.
    ExpectRoot,
    /// Inside the root's opening tag, reading its attributes.
    RootAttrs(MJMLElementParser),
    /// Between the root's children.
    Children(MJMLElementParser),
    /// Inside a section's opening tag, reading its attributes; the flag
    /// records whether the section is the head.
    SectionAttrs(MJMLElementParser, bool, Attributes),
    /// Skipping a section's subtree at the recorded depth.
    SectionBody(MJMLElementParser, bool, Attributes, usize),
    /// The root closed; trailing tokens are ignored.
    Done(MJMLElement),
    /// A structural error; every later token is ignored.
    Failed(ParserError),
}

/// Abstract content of a parse state.
pub enum StateView {
    /// Before the root's opening tag.
    ExpectRoot,
    /// Inside the root's opening tag.
    RootAttrs(ParserView),
    /// Between the root's children.
    Children(ParserView),
    /// Inside a section's opening tag.
    SectionAttrs(ParserView, bool, Map<Seq<char>, Seq<char>>),
    /// Skipping a section's subtree.
    SectionBody(ParserView, bool, Map<Seq<char>, Seq<char>>, int),
    /// The root closed.
    Done(MjmlView),
    /// A structural error.
    Failed(ParserError),
}

impl View for ParseState {
    type V = StateView;

    open spec fn view(&self) -> StateView {
        match self {
            ParseState::ExpectRoot => StateView::ExpectRoot,
            ParseState::RootAttrs(p) => StateView::RootAttrs(p@),
            ParseState::Children(p) => StateView::Children(p@),
            ParseState::SectionAttrs(p, h, a) => StateView::SectionAttrs(p@, *h, a@),
            ParseState::SectionBody(p, h, a, d) => StateView::SectionBody(p@, *h, a@, *d as int),
            ParseState::Done(e) => StateView::Done(e@),
            ParseState::Failed(e) => StateView::Failed(*e),
        }
    }
}

/// A parser accumulator with a finished section committed onto it.
pub open spec fn spec_commit(p: ParserView, is_head: bool, attrs: Map<Seq<char>, Seq<char>>)
    -> ParserView {
    if is_head {
        ParserView { head: Some(attrs), ..p }
    } else {
        ParserView { body: Some(attrs), ..p }
    }
}

/// The parser's transition on one token: the entire token-level grammar of
/// the document root.
pub open spec fn spec_step(s: StateView, t: RawToken) -> StateView {
    match s {
        StateView::ExpectRoot => match t {
            RawToken::ElementStart { local, start } => if local@ == "mjml"@ {
                StateView::RootAttrs(
                    ParserView { attributes: Map::empty(), head: None, body: None },
                )
            } else {
                StateView::Failed(ParserError::UnexpectedElement(start))
            },
            _ => StateView::Failed(ParserError::InvalidFormat),
        },
        StateView::RootAttrs(p) => match t {
            RawToken::Attribute { local, value } => StateView::RootAttrs(
                ParserView { attributes: p.attributes.insert(local@, value@), ..p },
            ),
            RawToken::ElementEnd { kind: EndKind::Open } => StateView::Children(p),
            RawToken::ElementEnd { kind: EndKind::Empty } => StateView::Done(spec_build(p)),
            _ => StateView::Failed(ParserError::InvalidFormat),
        },
        StateView::Children(p) => match t {
            RawToken::Comment { .. } => StateView::Children(p),
            RawToken::Text { text } => if all_ws(text@) {
                StateView::Children(p)
            } else {
                StateView::Failed(ParserError::InvalidFormat)
            },
            RawToken::ElementStart { local, start } => if local@ == "mj-head"@ {
                StateView::SectionAttrs(p, true, Map::empty())
            } else if local@ == "mj-body"@ {
                StateView::SectionAttrs(p, false, Map::empty())
            } else {
                StateView::Failed(ParserError::UnexpectedElement(start))
            },
            RawToken::ElementEnd { kind: EndKind::Close } => StateView::Done(spec_build(p)),
            _ => StateView::Failed(ParserError::InvalidFormat),
        },
        StateView::SectionAttrs(p, is_head, attrs) => match t {
            RawToken::Attribute { local, value } => StateView::SectionAttrs(
                p,
                is_head,
                attrs.insert(local@, value@),
            ),
            RawToken::ElementEnd { kind: EndKind::Open } => StateView::SectionBody(
                p,
                is_head,
                attrs,
                1,
            ),
            RawToken::ElementEnd { kind: EndKind::Empty } => StateView::Children(
                spec_commit(p, is_head, attrs),
            ),
            _ => StateView::Failed(ParserError::InvalidFormat),
        },
        StateView::SectionBody(p, is_head, attrs, depth) => match t {
            RawToken::ElementEnd { kind: EndKind::Open } => if depth >= usize::MAX as int {
                StateView::Failed(ParserError::InvalidFormat)
            } else {
                StateView::SectionBody(p, is_head, attrs, depth + 1)
            },
            RawToken::ElementEnd { kind: EndKind::Close } => if depth <= 1 {
                StateView::Children(spec_commit(p, is_head, attrs))
            } else {
                StateView::SectionBody(p, is_head, attrs, depth - 1)
            },
            RawToken::Error => StateView::Failed(ParserError::InvalidFormat),
            _ => StateView::SectionBody(p, is_head, attrs, depth),
        },
        StateView::Done(e) => StateView::Done(e),
        StateView::Failed(e) => StateView::Failed(e),
    }
}

/// The parser's state after consuming the tokens from `i` on, starting in
/// `s`.
pub open spec fn spec_run_from(ts: Seq<RawToken>, i: int, s: StateView) -> StateView
    decreases ts.len() - i,
{
    if i < 0 || i >= ts.len() {
        s
    } else {
        spec_run_from(ts, i + 1, spec_step(s, ts[i]))
    }
}

/// The outcome of a finished parse: the built root when the stream closed
/// the root properly, the recorded error when one was found, and a
/// malformed-document error when the stream ended mid-element.
pub open spec fn spec_outcome(s: StateView) -> Result<MjmlView, ParserError> {
    match s {
        StateView::Done(e) => Ok(e),
        StateView::Failed(err) => Err(err),
        _ => Err(ParserError::InvalidFormat),
    }
}

fn exec_step(state: ParseState, token: &RawToken, options: &RenderOptions) -> (r: ParseState)
    ensures
        r@ == spec_step(state@, *token),
{
    match state {
        ParseState::ExpectRoot => match token {
            RawToken::ElementStart { local, start } => {
                if str_eq(local.as_str(), "mjml") {
                    ParseState::RootAttrs(MJMLElementParser::new(options))
                } else {
                    ParseState::Failed(ParserError::UnexpectedElement(*start))
                }
            },
            _ => ParseState::Failed(ParserError::InvalidFormat),
        },
        ParseState::RootAttrs(mut p) => match token {
            RawToken::Attribute { local, value } => {
                p.attributes.insert(local.clone(), value.clone());
                ParseState::RootAttrs(p)
            },
            RawToken::ElementEnd { kind: EndKind::Open } => ParseState::Children(p),
            RawToken::ElementEnd { kind: EndKind::Empty } => match p.build() {
                Ok(e) => ParseState::Done(e),
                Err(err) => ParseState::Failed(err),
            },
            _ => ParseState::Failed(ParserError::InvalidFormat),
        },
        ParseState::Children(mut p) => match token {
            RawToken::Comment { .. } => match p.parse_child_comment() {
                Ok(_) => ParseState::Children(p),
                Err(err) => ParseState::Failed(err),
            },
            RawToken::Text { text } => {
                if exec_all_ws(text.as_str()) {
                    ParseState::Children(p)
                } else {
                    ParseState::Failed(ParserError::InvalidFormat)
                }
            },
            RawToken::ElementStart { local, start } => {
                match p.parse_child_element(local.as_str(), *start) {
                    Ok(is_head) => ParseState::SectionAttrs(p, is_head, Attributes::new()),
                    Err(err) => ParseState::Failed(err),
                }
            },
            RawToken::ElementEnd { kind: EndKind::Close } => match p.build() {
                Ok(e) => ParseState::Done(e),
                Err(err) => ParseState::Failed(err),
            },
            _ => ParseState::Failed(ParserError::InvalidFormat),
        },
        ParseState::SectionAttrs(p, is_head, mut attrs) => match token {
            RawToken::Attribute { local, value } => {
                attrs.insert(local.clone(), value.clone());
                ParseState::SectionAttrs(p, is_head, attrs)
            },
            RawToken::ElementEnd { kind: EndKind::Open } => ParseState::SectionBody(
                p,
                is_head,
                attrs,
                1,
            ),
            RawToken::ElementEnd { kind: EndKind::Empty } => ParseState::Children(
                commit(p, is_head, attrs),
            ),
            _ => ParseState::Failed(ParserError::InvalidFormat),
        },
        ParseState::SectionBody(p, is_head, attrs, depth) => match token {
            RawToken::ElementEnd { kind: EndKind::Open } => {
                if depth >= usize::MAX {
                    ParseState::Failed(ParserError::InvalidFormat)
                } else {
                    ParseState::SectionBody(p, is_head, attrs, depth + 1)
                }
            },
            RawToken::ElementEnd { kind: EndKind::Close } => {
                if depth <= 1 {
                    ParseState::Children(commit(p, is_head, attrs))
                } else {
                    ParseState::SectionBody(p, is_head, attrs, depth - 1)
                }
            },
            RawToken::Error => ParseState::Failed(ParserError::InvalidFormat),
            _ => ParseState::SectionBody(p, is_head, attrs, depth),
        },
        ParseState::Done(e) => ParseState::Done(e),
        ParseState::Failed(e) => ParseState::Failed(e),
    }
}

fn commit(p: MJMLElementParser, is_head: bool, attrs: Attributes) -> (r: MJMLElementParser)
    ensures
        r@ == spec_commit(p@, is_head, attrs@),
{
    let mut p = p;
    if is_head {
        p.head = Some(MJHead { attributes: attrs });
    } else {
        p.body = Some(MJBody { attributes: attrs });
    }
    p
}

fn run_tokens(tokens: &Vec<RawToken>, initial: ParseState, options: &RenderOptions) -> (r: Result<
    MJMLElement,
    ParserError,
>)
    ensures
        match r {
            Ok(e) => spec_outcome(spec_run_from(tokens@, 0, initial@)) == Ok::<
                MjmlView,
                ParserError,
            >(e@),
            Err(err) => spec_outcome(spec_run_from(tokens@, 0, initial@)) == Err::<
                MjmlView,
                ParserError,
            >(err),
        },
{
    let n = tokens.len();
    let mut state = initial;
    let mut i: usize = 0;
    while i < n
        invariant
            n == tokens@.len(),
            i <= n,
            spec_run_from(tokens@, 0, initial@) == spec_run_from(tokens@, i as int, state@),
        decreases n - i,
    {
        state = exec_step(state, &tokens[i], options);
        i = i + 1;
    }
    match state {
        ParseState::Done(e) => Ok(e),
        ParseState::Failed(err) => Err(err),
        _ => Err(ParserError::InvalidFormat),
    }
}

impl MJMLElement {
    /// Parses the root's attributes and children from the tokens that
    /// follow its already-consumed opening tag.
    pub fn parse_tokens(tokens: &Vec<RawToken>, options: &RenderOptions) -> (r: Result<
        MJMLElement,
        ParserError,
    >)
        ensures
            match r {
                Ok(e) => spec_outcome(
                    spec_run_from(
                        tokens@,
                        0,
                        StateView::RootAttrs(
                            ParserView {
                                attributes: Map::empty(),
                                head: None,
                                body: None,
                            },
                        ),
                    ),
                ) == Ok::<MjmlView, ParserError>(e@),
                Err(err) => spec_outcome(
                    spec_run_from(
                        tokens@,
                        0,
                        StateView::RootAttrs(
                            ParserView {
                                attributes: Map::empty(),
                                head: None,
                                body: None,
                            },
                        ),
                    ),
                ) == Err::<MjmlView, ParserError>(err),
            },
    {
        run_tokens(tokens, ParseState::RootAttrs(MJMLElementParser::new(options)), options)
    }

    /// Parses a whole document from its tokens: the stream must open with
    /// the root tag, and its children must come from the allowed-child
    /// set.
    pub fn parse_root_tokens(tokens: &Vec<RawToken>, options: &RenderOptions) -> (r: Result<
        MJMLElement,
        ParserError,
    >)
        ensures
            match r {
                Ok(e) => spec_outcome(spec_run_from(tokens@, 0, StateView::ExpectRoot)) == Ok::<
                    MjmlView,
                    ParserError,
                >(e@),
                Err(err) => spec_outcome(spec_run_from(tokens@, 0, StateView::ExpectRoot)) == Err::<
                    MjmlView,
                    ParserError,
                >(err),
            },
    {
        run_tokens(tokens, ParseState::ExpectRoot, options)
    }

    /// Parses the root's attributes and children from a tokenizer
    /// positioned just after the root's opening tag.
    pub fn parse(tokenizer: &mut xmlparser::Tokenizer, options: &RenderOptions) -> Result<
        MJMLElement,
        ParserError,
    > {
        let tokens = drain_tokens(tokenizer);
        Self::parse_tokens(&tokens, options)
    }

    /// Parses a whole document from a tokenizer positioned at its start.
    pub fn parse_root(tokenizer: &mut xmlparser::Tokenizer, options: &RenderOptions) -> Result<
        MJMLElement,
        ParserError,
    > {
        let tokens = drain_tokens(tokenizer);
        Self::parse_root_tokens(&tokens, options)
    }
}

} // verus!
