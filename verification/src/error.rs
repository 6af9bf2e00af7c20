use vstd::prelude::*;
use vstd::std_specs::cmp::PartialEqSpec;

verus! {

/// A boxed source error. Every such value displays, so it can be handed to [`Error::new`].
pub type BoxedError = Box<dyn core::error::Error + Send + Sync>;

/// What an [`Error`] is, as the contracts see it.
pub enum ErrorView<K> {
    /// An error that displays its kind.
    Simple { kind: K },
    /// An error that displays a static message.
    Message { kind: K, message: Seq<char> },
    /// An error that displays the text of its source error.
    Custom { kind: K, source: Seq<char> },
}

impl<K> ErrorView<K> {
    /// The kind the error was made with.
    pub open spec fn kind(self) -> K {
        match self {
            ErrorView::Simple { kind } => kind,
            ErrorView::Message { kind, .. } => kind,
            ErrorView::Custom { kind, .. } => kind,
        }
    }
}

/// `text` is a text that `value`'s `Display` impl may write: one that `to_string` can return.
pub open spec fn displays_as<T: core::fmt::Display + ?Sized>(value: &T, text: Seq<char>) -> bool {
    exists|s: String| #[trigger] vstd::string::to_string_from_display_ensures::<T>(value, s) && s@ == text
}

/// A source error, kept as the text it displays.
pub struct Source {
    text: String,
}

impl View for Source {
    type V = Seq<char>;

    closed spec fn view(&self) -> Seq<char> {
        self.text@
    }
}

impl Source {
    /// Captures the text that `error` displays.
    pub fn new<E: core::fmt::Display>(error: E) -> (s: Source)
        ensures
            displays_as(&error, s@),
    {
        let text = error.to_string();
        Source { text }
    }

    /// The text that the source error displays.
    pub fn to_string(&self) -> (s: String)
        ensures
            s@ == self@,
    {
        self.text.clone()
    }
}

struct Custom<K> {
    kind: K,
    source: Source,
}

enum Inner<K> {
    Simple(K),
    Message(K, &'static str),
    Custom(Custom<K>),
}

/// An opaque error with a user-defined kind.
pub struct Error<K>(Inner<K>);

impl<K> View for Error<K> {
    type V = ErrorView<K>;

    closed spec fn view(&self) -> ErrorView<K> {
        match self.0 {
            Inner::Simple(kind) => ErrorView::Simple { kind },
            Inner::Message(kind, message) => ErrorView::Message { kind, message: message@ },
            Inner::Custom(c) => ErrorView::Custom { kind: c.kind, source: c.source@ },
        }
    }
}

impl<K> Error<K> {
    /// The error that [`Error::simple`] builds from `kind`.
    pub closed spec fn simple_value(kind: K) -> Self {
        Error(Inner::Simple(kind))
    }

    /// The error that [`Error::with_static_message`] builds from `kind` and `message`.
    pub closed spec fn message_value(kind: K, message: &'static str) -> Self {
        Error(Inner::Message(kind, message))
    }

    /// The error with a source that `kind` and `source` make.
    pub closed spec fn custom_value(kind: K, source: Source) -> Self {
        Error(Inner::Custom(Custom { kind, source }))
    }

    /// Creates an error without a specific message or source.
    pub fn simple(kind: K) -> (e: Self)
        ensures
            e@ == (ErrorView::Simple { kind }),
            e == Error::simple_value(kind),
    {
        Error(Inner::Simple(kind))
    }

    /// Creates a new error from a kind and an arbitrary error payload, whose displayed
    /// text is captured when the error is created.
    pub fn new<E: core::fmt::Display>(kind: K, error: E) -> (e: Self)
        ensures
            e@ is Custom,
            e@.kind() == kind,
            displays_as(&error, e@->source),
    {
        Error(Inner::Custom(Custom { kind, source: Source::new(error) }))
    }

    /// Creates an error with a static message.
    pub fn with_static_message(kind: K, message: &'static str) -> (e: Self)
        ensures
            e@ == (ErrorView::Message { kind, message: message@ }),
            e == Error::message_value(kind, message),
    {
        Error(Inner::Message(kind, message))
    }

    /// Returns the error kind.
    pub fn kind(&self) -> (k: K)
        where K: Copy
        ensures
            k == self@.kind(),
    {
        match &self.0 {
            Inner::Simple(kind) => *kind,
            Inner::Message(kind, _) => *kind,
            Inner::Custom(c) => c.kind,
        }
    }

    /// The text this error displays: the kind's display for a simple error, the message
    /// for an error with a static message, and the source's display for one with a source.
    pub fn to_string(&self) -> (s: String)
        where K: core::fmt::Display
        ensures
            match self@ {
                ErrorView::Simple { kind } => displays_as(&kind, s@),
                ErrorView::Message { message, .. } => s@ == message,
                ErrorView::Custom { source, .. } => s@ == source,
            },
    {
        match &self.0 {
            Inner::Simple(kind) => kind.to_string(),
            Inner::Message(_, message) => str::to_owned(*message),
            Inner::Custom(c) => c.source.to_string(),
        }
    }

    /// The static message, present exactly for an error created with one.
    pub fn static_message(&self) -> (m: Option<&'static str>)
        ensures
            match self@ {
                ErrorView::Message { message, .. } => m is Some && m.unwrap()@ == message,
                _ => m is None,
            },
    {
        match &self.0 {
            Inner::Message(_, message) => Some(*message),
            _ => None,
        }
    }

    /// The source error, present exactly for an error created with one.
    pub fn source(&self) -> (s: Option<&Source>)
        ensures
            match self@ {
                ErrorView::Custom { source, .. } => s is Some && s.unwrap()@ == source,
                _ => s is None,
            },
    {
        match &self.0 {
            Inner::Simple(_) => None,
            Inner::Message(_, _) => None,
            Inner::Custom(c) => Some(&c.source),
        }
    }
}

/// The errors that the conversions build are the ones that the constructors build:
/// a kind alone makes a simple error, a kind with a static message an error with that
/// message, and a kind with a source an error with that source.
pub proof fn conversions_build_constructor_values<K>(kind: K, message: &'static str, source: Source)
    ensures
        Error::<K>::simple_value(kind)@ == (ErrorView::Simple { kind }),
        Error::<K>::message_value(kind, message)@ == (ErrorView::Message { kind, message: message@ }),
        Error::<K>::custom_value(kind, source)@ == (ErrorView::Custom { kind, source: source@ }),
{
}

impl<K> From<K> for Error<K> {
    fn from(kind: K) -> (e: Self) {
        Error(Inner::Simple(kind))
    }
}

impl<K> vstd::std_specs::convert::FromSpecImpl<K> for Error<K> {
    open spec fn obeys_from_spec() -> bool {
        true
    }

    open spec fn from_spec(kind: K) -> Self {
        Error::simple_value(kind)
    }
}

impl<K> From<(K, &'static str)> for Error<K> {
    fn from(pair: (K, &'static str)) -> (e: Self) {
        let (kind, message) = pair;
        Self::with_static_message(kind, message)
    }
}

impl<K> vstd::std_specs::convert::FromSpecImpl<(K, &'static str)> for Error<K> {
    open spec fn obeys_from_spec() -> bool {
        true
    }

    open spec fn from_spec(pair: (K, &'static str)) -> Self {
        Error::message_value(pair.0, pair.1)
    }
}

impl<K> From<(K, Source)> for Error<K> {
    fn from(pair: (K, Source)) -> (e: Self) {
        let (kind, source) = pair;
        Error(Inner::Custom(Custom { kind, source }))
    }
}

impl<K> vstd::std_specs::convert::FromSpecImpl<(K, Source)> for Error<K> {
    open spec fn obeys_from_spec() -> bool {
        true
    }

    open spec fn from_spec(pair: (K, Source)) -> Self {
        Error::custom_value(pair.0, pair.1)
    }
}

/// Whether two `&str` hold the same text.
fn same_text(a: &str, b: &str) -> (r: bool)
    ensures
        r == (a@ == b@),
{
    let a = str::to_owned(a);
    let b = str::to_owned(b);
    a == b
}

impl<K: PartialEq> PartialEq for Error<K> {
    fn eq(&self, other: &Self) -> (r: bool) {
        match (&self.0, &other.0) {
            (Inner::Simple(a), Inner::Simple(b)) => a == b,
            (Inner::Message(a, m), Inner::Message(b, n)) => a == b && same_text(m, n),
            (Inner::Custom(c), Inner::Custom(d)) => c.kind == d.kind && c.source.text == d.source.text,
            _ => false,
        }
    }
}

impl<K: PartialEq> vstd::std_specs::cmp::PartialEqSpecImpl for Error<K> {
    open spec fn obeys_eq_spec() -> bool {
        K::obeys_eq_spec()
    }

    open spec fn eq_spec(&self, other: &Self) -> bool {
        match (self@, other@) {
            (ErrorView::Simple { kind: a }, ErrorView::Simple { kind: b }) => a.eq_spec(&b),
            (ErrorView::Message { kind: a, message: m }, ErrorView::Message { kind: b, message: n }) =>
                a.eq_spec(&b) && m == n,
            (ErrorView::Custom { kind: a, source: m }, ErrorView::Custom { kind: b, source: n }) =>
                a.eq_spec(&b) && m == n,
            _ => false,
        }
    }
}

impl<K: Eq> Eq for Error<K> {}

} // verus!
