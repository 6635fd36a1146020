use vstd::prelude::*;

verus! {

/// The three kinds of failure the converter can report: a locally synthesized
/// message, an exception captured from a failed host dispatch (kept as its
/// message text), and a named unsupported data-model shape.
#[derive(Debug, PartialEq)]
pub enum ErrorKind {
    Message(String),
    RutieException(String),
    NotImplemented(String),
}

/// Mathematical model of an error kind.
pub enum ErrorKindM {
    Message(Seq<char>),
    RutieException(Seq<char>),
    NotImplemented(Seq<char>),
}

impl View for ErrorKind {
    type V = ErrorKindM;

    open spec fn view(&self) -> ErrorKindM {
        match self {
            ErrorKind::Message(s) => ErrorKindM::Message(s@),
            ErrorKind::RutieException(s) => ErrorKindM::RutieException(s@),
            ErrorKind::NotImplemented(s) => ErrorKindM::NotImplemented(s@),
        }
    }
}

/// A failure value: one kind plus the ordered context strings appended as the
/// failure propagates upward. The innermost conversion pushes first, so the
/// rendering order is call order.
#[derive(Debug)]
pub struct Error {
    kind: ErrorKind,
    context: Vec<String>,
}

/// Mathematical model of an error: its kind and its context strings in push
/// order.
pub struct ErrorM {
    pub kind: ErrorKindM,
    pub context: Seq<Seq<char>>,
}

impl View for Error {
    type V = ErrorM;

    closed spec fn view(&self) -> ErrorM {
        ErrorM { kind: self.kind@, context: self.context.deep_view() }
    }
}

impl Error {
    /// Appends one context string, computed lazily so that nothing is spent on
    /// the success path of `ResultExt::chain_context`.
    pub fn chain_context<F: FnOnce() -> String>(self, func: F) -> (r: Self)
        requires
            func.requires(()),
        ensures
            r@.kind == self@.kind,
            exists|s: String| #[trigger] func.ensures((), s) && r@.context == self@.context.push(
                s@,
            ),
    {
        let mut this = self;
        let msg = func();
        this.context.push(msg);
        this
    }

    /// Appends one already-computed context string.
    pub fn with_context(self, msg: String) -> (r: Self)
        ensures
            r@.kind == self@.kind,
            r@.context == self@.context.push(msg@),
    {
        let mut this = self;
        this.context.push(msg);
        this
    }

    pub fn kind(&self) -> (r: &ErrorKind)
        ensures
            r@ == self@.kind,
    {
        &self.kind
    }

    pub fn context(&self) -> (r: &Vec<String>)
        ensures
            r.deep_view() == self@.context,
    {
        &self.context
    }
}

impl Error {
    /// Wraps a kind into an error with no context yet.
    pub fn from_kind(kind: ErrorKind) -> (r: Error)
        ensures
            r@.kind == kind@,
            r@.context == Seq::<Seq<char>>::empty(),
    {
        Error { kind, context: Vec::new() }
    }

    /// A plain message error with no context yet.
    pub fn from_message(msg: String) -> (r: Error)
        ensures
            r@.kind == ErrorKindM::Message(msg@),
            r@.context == Seq::<Seq<char>>::empty(),
    {
        Error { kind: ErrorKind::Message(msg), context: Vec::new() }
    }
}

/// The context strings joined with the rendering separator, first pushed
/// first.
pub open spec fn spec_join_context(ctx: Seq<Seq<char>>) -> Seq<char>
    decreases ctx.len(),
{
    if ctx.len() == 0 {
        Seq::empty()
    } else if ctx.len() == 1 {
        ctx[0]
    } else {
        ctx[0] + "\n - "@ + spec_join_context(ctx.drop_first())
    }
}

/// How a context list renders: nothing when it is empty, else a heading and
/// the strings in push order.
pub open spec fn spec_describe_context(ctx: Seq<Seq<char>>) -> Seq<char> {
    if ctx.len() == 0 {
        Seq::empty()
    } else {
        "\nContext from Rust:\n - "@ + spec_join_context(ctx)
    }
}

/// The fixed description of each kind.
pub open spec fn spec_description(k: ErrorKindM) -> Seq<char> {
    match k {
        ErrorKindM::Message(_) => "Generic Error"@,
        ErrorKindM::RutieException(_) => "Rutie Exception"@,
        ErrorKindM::NotImplemented(d) => d,
    }
}

/// The message text a kind renders as: for a captured host exception its
/// message, otherwise the synthesized or not-implemented text.
pub open spec fn spec_kind_text(k: ErrorKindM) -> Seq<char> {
    match k {
        ErrorKindM::Message(m) => m,
        ErrorKindM::RutieException(m) => m,
        ErrorKindM::NotImplemented(d) => d,
    }
}

proof fn lemma_join_context_push(ctx: Seq<Seq<char>>, x: Seq<char>)
    ensures
        spec_join_context(ctx.push(x)) == if ctx.len() == 0 {
            x
        } else {
            spec_join_context(ctx) + "\n - "@ + x
        },
    decreases ctx.len(),
{
    if ctx.len() == 0 {
        assert(ctx.push(x) =~= seq![x]);
    } else if ctx.len() == 1 {
        assert(ctx.push(x).drop_first() =~= seq![x]);
        assert(spec_join_context(seq![x]) == x);
        assert(ctx.push(x)[0] == ctx[0]);
        assert(spec_join_context(ctx.push(x)) == ctx[0] + "\n - "@ + x);
    } else {
        lemma_join_context_push(ctx.drop_first(), x);
        assert(ctx.push(x).drop_first() =~= ctx.drop_first().push(x));
        assert(spec_join_context(ctx.push(x)) == ctx[0] + "\n - "@ + spec_join_context(
            ctx.drop_first().push(x),
        ));
        assert((ctx[0] + "\n - "@ + (spec_join_context(ctx.drop_first()) + "\n - "@ + x)) =~= (
        ctx[0] + "\n - "@ + spec_join_context(ctx.drop_first()) + "\n - "@ + x));
    }
}

impl Error {
    /// Renders the accumulated context strings, or nothing when there are
    /// none.
    pub fn describe_context(&self) -> (r: String)
        ensures
            r@ == spec_describe_context(self@.context),
    {
        if self.context.len() == 0 {
            String::new()
        } else {
            let mut out = String::new();
            out.append("\nContext from Rust:\n - ");
            let mut i: usize = 0;
            while i < self.context.len()
                invariant
                    0 <= i <= self.context.len(),
                    self.context.len() > 0,
                    out@ == "\nContext from Rust:\n - "@ + spec_join_context(
                        self@.context.take(i as int),
                    ),
                decreases self.context.len() - i,
            {
                if i > 0 {
                    out.append("\n - ");
                }
                out.append(self.context[i].as_str());
                proof {
                    lemma_join_context_push(
                        self@.context.take(i as int),
                        self@.context[i as int],
                    );
                    assert(self@.context.take(i + 1 as int) =~= self@.context.take(
                        i as int,
                    ).push(self@.context[i as int]));
                    if i > 0 {
                        assert(("\nContext from Rust:\n - "@ + spec_join_context(
                            self@.context.take(i as int),
                        ) + "\n - "@ + self@.context[i as int]) =~= (
                        "\nContext from Rust:\n - "@ + (spec_join_context(
                            self@.context.take(i as int),
                        ) + "\n - "@ + self@.context[i as int])));
                    }
                }
                i += 1;
            }
            proof {
                assert(self@.context.take(self.context.len() as int) =~= self@.context);
            }
            out
        }
    }

    /// The fixed description of this error's kind.
    pub fn description(&self) -> (r: String)
        ensures
            r@ == spec_description(self@.kind),
    {
        match &self.kind {
            ErrorKind::Message(_) => "Generic Error".to_owned(),
            ErrorKind::RutieException(_) => "Rutie Exception".to_owned(),
            ErrorKind::NotImplemented(d) => d.clone(),
        }
    }

    /// The full rendering: the kind's text, a line break, then the context.
    pub fn display_string(&self) -> (r: String)
        ensures
            r@ == spec_kind_text(self@.kind) + "\n"@ + spec_describe_context(self@.context),
    {
        let mut out = match &self.kind {
            ErrorKind::Message(m) => m.clone(),
            ErrorKind::RutieException(m) => m.clone(),
            ErrorKind::NotImplemented(d) => d.clone(),
        };
        out.append("\n");
        let ctx = self.describe_context();
        out.append(ctx.as_str());
        out
    }

    /// Whether rendering as a host exception should reuse the captured host
    /// exception rather than build a fresh one of the default class.
    pub fn is_foreign_exception(&self) -> (r: bool)
        ensures
            r == (self@.kind matches ErrorKindM::RutieException(_)),
    {
        match &self.kind {
            ErrorKind::RutieException(_) => true,
            _ => false,
        }
    }

    /// The message the rendered host exception carries: for a captured host
    /// exception its own message plus the context, otherwise the full
    /// rendering.
    pub fn exception_message(&self) -> (r: String)
        ensures
            r@ == if self@.kind matches ErrorKindM::RutieException(_) {
                spec_kind_text(self@.kind) + spec_describe_context(self@.context)
            } else {
                spec_kind_text(self@.kind) + "\n"@ + spec_describe_context(self@.context)
            },
    {
        match &self.kind {
            ErrorKind::RutieException(m) => {
                let mut out = m.clone();
                let ctx = self.describe_context();
                out.append(ctx.as_str());
                out
            },
            _ => self.display_string(),
        }
    }
}

/// This extension trait lets callers append extra context to the error of a
/// failed step while passing a success through untouched; the context string
/// is computed only on the failure path.
pub trait ResultExt: Sized {
    /// Whether the value carries no error; on such a value `chain_context`
    /// never runs its closure.
    spec fn is_success(self) -> bool;

    /// Holds when `post` is `pre` with the context string `c` appended to its
    /// error.
    spec fn context_appended(pre: Self, post: Self, c: Seq<char>) -> bool;

    fn chain_context<F: FnOnce() -> String>(self, func: F) -> (r: Self)
        requires
            func.requires(()),
        ensures
            Self::is_success(self) ==> r == self,
            !Self::is_success(self) ==> exists|s: String|
                #[trigger] func.ensures((), s) && Self::context_appended(self, r, s@),
    ;
}

impl<T> ResultExt for Result<T, Error> {
    open spec fn is_success(self) -> bool {
        self is Ok
    }

    open spec fn context_appended(pre: Self, post: Self, c: Seq<char>) -> bool {
        match pre {
            Ok(_) => false,
            Err(e) => match post {
                Ok(_) => false,
                Err(e2) => e2@.kind == e@.kind && e2@.context == e@.context.push(c),
            },
        }
    }

    fn chain_context<F: FnOnce() -> String>(self, func: F) -> (r: Self) {
        match self {
            Ok(ok) => Ok(ok),
            Err(err) => Err(err.chain_context(func)),
        }
    }
}

/// Turning a failure into what the host's exception-raising edge needs: a
/// flag that says whether to reuse the captured host exception, and the
/// message the raised exception carries. Anything not captured from the
/// host becomes a new instance of the caller's default class.
pub trait IntoException: Sized {
    /// What the rendered exception parts must satisfy.
    spec fn exception_post(self, r: (bool, String)) -> bool;

    fn into_exception(self) -> (r: (bool, String))
        ensures
            Self::exception_post(self, r),
    ;
}

impl IntoException for Error {
    open spec fn exception_post(self, r: (bool, String)) -> bool {
        &&& r.0 == (self@.kind matches ErrorKindM::RutieException(_))
        &&& r.1@ == if self@.kind matches ErrorKindM::RutieException(_) {
            spec_kind_text(self@.kind) + spec_describe_context(self@.context)
        } else {
            spec_kind_text(self@.kind) + "\n"@ + spec_describe_context(self@.context)
        }
    }

    fn into_exception(self) -> (r: (bool, String)) {
        let reuse = self.is_foreign_exception();
        let msg = self.exception_message();
        (reuse, msg)
    }
}

} // verus!
