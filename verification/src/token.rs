//! Cancellation tokens: the handles by which parts of the system are asked to stop.
//!
//! The tokens are those of `tokio_util`. They form trees: cancelling a token also cancels every
//! token below it. A cancelled token stays cancelled.
//!
//! Handles on a token are shared freely, and any of them can cancel it. What a function may cancel
//! is therefore said by the types of the tokens that it is given: it can make, share and ask a
//! token whose type is a [`TokenNode`], and it can cancel only one whose type [`Cancels`].
use tokio_util::sync::CancellationToken;
use vstd::prelude::*;

verus! {

/// Declares `tokio_util::sync::CancellationToken`, a handle on a node of a tree of tokens.
#[verifier::external_type_specification]
#[verifier::external_body]
pub struct ExCancellationToken(CancellationToken);

/// Where a token stands in its tree: the nodes from the root of the tree down to the token's own.
pub uninterp spec fn token_path(token: CancellationToken) -> Seq<nat>;

/// Whether the token was cancelled through this handle, or through a handle that this one was
/// derived from before. The token may have been cancelled elsewhere as well.
pub uninterp spec fn token_stopped(token: CancellationToken) -> bool;

/// A mention of a token, to say how another one relates to it. Nothing can be done with it.
pub struct TokenRef<'a> {
    token: &'a CancellationToken,
}

impl<'a> View for TokenRef<'a> {
    type V = CancellationToken;

    closed spec fn view(&self) -> CancellationToken {
        *self.token
    }
}

/// `CancellationToken::new` starts a tree of its own, with a token that is not cancelled. The tree
/// is none of those that the tokens `beside` it belong to.
#[verifier::external_body]
fn new_token(beside: &Vec<TokenRef<'_>>) -> (made: CancellationToken)
    ensures
        token_path(made).len() == 1,
        !token_stopped(made),
        forall|i: int| 0 <= i < beside@.len() ==> apart(made, (#[trigger] beside@[i])@),
    opens_invariants none
{
    CancellationToken::new()
}

/// Cloning a `CancellationToken` gives another handle on the same token.
pub assume_specification[ <CancellationToken as Clone>::clone ](
    node: &CancellationToken,
) -> (made: CancellationToken)
    ensures
        token_path(made) == token_path(*node),
        token_stopped(made) == token_stopped(*node),
;

/// `CancellationToken::child_token` makes a token directly below the given one; below a cancelled
/// token the new one is cancelled from the start. It is a new node of the tree, so none of the
/// tokens `beside` it stands below it or is the same.
#[verifier::external_body]
fn child_token(node: &CancellationToken, beside: &Vec<TokenRef<'_>>) -> (made:
    CancellationToken)
    ensures
        token_path(made).len() == token_path(*node).len() + 1,
        token_path(made).drop_last() == token_path(*node),
        token_stopped(made) == token_stopped(*node),
        forall|i: int| 0 <= i < beside@.len() ==> !reaches(made, (#[trigger] beside@[i])@),
    opens_invariants none
{
    node.child_token()
}

/// `CancellationToken::is_cancelled` is true of a token that was cancelled through this handle, and
/// of one that was cancelled for certain with one of the tokens `known`: through another handle on
/// it, or from the root of its tree. Handles elsewhere may have cancelled it too, so nothing is
/// said of any other token. Nothing is said either of a token in the middle of a tree that was
/// cancelled while its root was being cancelled elsewhere: those below it may follow a moment
/// later.
#[verifier::external_body]
fn is_cancelled(token: &CancellationToken, known: &Vec<TokenRef<'_>>) -> (cancelled: bool)
    ensures
        token_stopped(*token) ==> cancelled,
        forall|i: int|
            0 <= i < known@.len() && token_stopped((#[trigger] known@[i])@) && stops(
                known@[i]@,
                *token,
            ) ==> cancelled,
    opens_invariants none
{
    token.is_cancelled()
}

/// Whether `cancelled` is an answer that `CancellationToken::is_cancelled` can give of `token`. Of
/// a token that is cancelled by someone else in the meantime, both answers can be given, one after
/// the other.
pub closed spec fn answered(token: CancellationToken, cancelled: bool) -> bool {
    exists|known: &Vec<TokenRef<'_>>| #[trigger]
        call_ensures(is_cancelled, (&token, known), cancelled)
}

/// Asks whether a token is cancelled, by itself or with one of the tokens `known`.
fn ask(token: &CancellationToken, known: &Vec<TokenRef<'_>>) -> (cancelled: bool)
    ensures
        answered(*token, cancelled),
        token_stopped(*token) ==> cancelled,
        forall|i: int|
            0 <= i < known@.len() && token_stopped((#[trigger] known@[i])@) && stops(
                known@[i]@,
                *token,
            ) ==> cancelled,
    opens_invariants none
{
    is_cancelled(token, known)
}

/// No answer denies what is known: of a token that is known to be cancelled, the answer is `true`.
pub proof fn lemma_answers_deny_nothing(token: CancellationToken, cancelled: bool)
    requires
        answered(token, cancelled),
    ensures
        token_stopped(token) ==> cancelled,
{
}

/// `CancellationToken::cancel` cancels the token, which keeps its place in the tree.
#[verifier::external_body]
fn cancel(token: &mut CancellationToken)
    ensures
        token_path(*final(token)) == token_path(*old(token)),
        token_stopped(*final(token)),
{
    token.cancel();
}

/// A handle on a token.
pub trait Held: Sized {
    /// The token.
    spec fn token(&self) -> CancellationToken;
}

/// A handle by which a token is shared, asked, and made the parent of others. None of this cancels
/// a token.
pub trait TokenNode: Held {
    /// Mentions the token.
    fn mention(&self) -> (mention: TokenRef<'_>)
        ensures
            mention@ == self.token(),
        opens_invariants none
    ;

    /// Another handle on the same token.
    fn share(&self) -> (made: Self)
        ensures
            token_path(made.token()) == token_path(self.token()),
            token_stopped(made.token()) == token_stopped(self.token()),
    ;

    /// A token that starts a tree of its own, beside those of other tokens.
    fn fresh(beside: &Vec<TokenRef<'_>>) -> (made: Self)
        ensures
            token_path(made.token()).len() == 1,
            !token_stopped(made.token()),
            forall|i: int| 0 <= i < beside@.len() ==> apart(made.token(), (#[trigger] beside@[i])@),
        opens_invariants none
    ;

    /// A new token directly below this one, beside other tokens.
    fn child(&self, beside: &Vec<TokenRef<'_>>) -> (made: Self)
        ensures
            token_path(made.token()).len() == token_path(self.token()).len() + 1,
            token_path(made.token()).drop_last() == token_path(self.token()),
            token_stopped(made.token()) == token_stopped(self.token()),
            forall|i: int|
                0 <= i < beside@.len() ==> !reaches(made.token(), (#[trigger] beside@[i])@),
        opens_invariants none
    ;

    /// Whether the token is cancelled, by itself or with one of the tokens `known`.
    fn is_stopped(&self, known: &Vec<TokenRef<'_>>) -> (cancelled: bool)
        ensures
            answered(self.token(), cancelled),
            token_stopped(self.token()) ==> cancelled,
            forall|i: int|
                0 <= i < known@.len() && token_stopped((#[trigger] known@[i])@) && stops(
                    known@[i]@,
                    self.token(),
                ) ==> cancelled,
        opens_invariants none
    ;

    /// A handle that has taken note that the token is cancelled, if it is.
    fn noted(&self, known: &Vec<TokenRef<'_>>) -> (noted: Option<Self>)
        ensures
            answered(self.token(), noted is Some),
            token_stopped(self.token()) ==> noted is Some,
            forall|i: int|
                0 <= i < known@.len() && token_stopped((#[trigger] known@[i])@) && stops(
                    known@[i]@,
                    self.token(),
                ) ==> noted is Some,
            noted matches Some(made) ==> token_path(made.token()) == token_path(self.token())
                && token_stopped(made.token()),
    ;
}

/// A handle by which a token is cancelled.
pub trait Cancels: Held {
    /// Cancels the token.
    fn request(&mut self)
        ensures
            token_path(final(self).token()) == token_path(old(self).token()),
            token_stopped(final(self).token()),
    ;
}

impl Held for CancellationToken {
    open spec fn token(&self) -> CancellationToken {
        *self
    }
}

/// What a handle on a token is made of. To copy it, to make others and to ask it cancels no token;
/// it is marked only if it is cancelled already.
pub trait TokenParts: Held + Clone {
    /// A copy of a handle is another handle on the same token.
    proof fn lemma_copy(handle: Self, copy: Self)
        requires
            cloned(handle, copy),
        ensures
            token_path(copy.token()) == token_path(handle.token()),
            token_stopped(copy.token()) == token_stopped(handle.token()),
    ;

    /// Mentions the token.
    fn reference(&self) -> (mention: TokenRef<'_>)
        ensures
            mention@ == self.token(),
        opens_invariants none
    ;

    /// The root of a new tree.
    fn root(beside: &Vec<TokenRef<'_>>) -> (made: Self)
        ensures
            token_path(made.token()).len() == 1,
            !token_stopped(made.token()),
            forall|i: int| 0 <= i < beside@.len() ==> apart(made.token(), (#[trigger] beside@[i])@),
        opens_invariants none
    ;

    /// A new token directly below this one.
    fn branch(&self, beside: &Vec<TokenRef<'_>>) -> (made: Self)
        ensures
            token_path(made.token()).len() == token_path(self.token()).len() + 1,
            token_path(made.token()).drop_last() == token_path(self.token()),
            token_stopped(made.token()) == token_stopped(self.token()),
            forall|i: int|
                0 <= i < beside@.len() ==> !reaches(made.token(), (#[trigger] beside@[i])@),
        opens_invariants none
    ;

    /// Whether the token is cancelled.
    fn answer(&self, known: &Vec<TokenRef<'_>>) -> (cancelled: bool)
        ensures
            answered(self.token(), cancelled),
            token_stopped(self.token()) ==> cancelled,
            forall|i: int|
                0 <= i < known@.len() && token_stopped((#[trigger] known@[i])@) && stops(
                    known@[i]@,
                    self.token(),
                ) ==> cancelled,
        opens_invariants none
    ;

    /// Marks a handle on a token that another handle was told to be cancelled.
    fn mark(&mut self, told: &Self)
        requires
            answered(told.token(), true),
            token_path(told.token()) == token_path(old(self).token()),
        ensures
            token_path(final(self).token()) == token_path(old(self).token()),
            token_stopped(final(self).token()),
    ;
}

impl TokenParts for CancellationToken {
    proof fn lemma_copy(handle: Self, copy: Self) {
    }

    fn reference(&self) -> (mention: TokenRef<'_>) {
        TokenRef { token: self }
    }

    fn root(beside: &Vec<TokenRef<'_>>) -> (made: Self) {
        new_token(beside)
    }

    fn branch(&self, beside: &Vec<TokenRef<'_>>) -> (made: Self) {
        child_token(self, beside)
    }

    fn answer(&self, known: &Vec<TokenRef<'_>>) -> (cancelled: bool) {
        ask(self, known)
    }

    fn mark(&mut self, told: &Self) {
        cancel(self);
    }
}

impl<T: TokenParts> TokenNode for T {
    fn mention(&self) -> (mention: TokenRef<'_>) {
        self.reference()
    }

    fn share(&self) -> (made: Self) {
        let made: T = self.clone();
        proof {
            T::lemma_copy(*self, made);
        }
        made
    }

    fn fresh(beside: &Vec<TokenRef<'_>>) -> (made: Self) {
        T::root(beside)
    }

    fn child(&self, beside: &Vec<TokenRef<'_>>) -> (made: Self) {
        self.branch(beside)
    }

    fn is_stopped(&self, known: &Vec<TokenRef<'_>>) -> (cancelled: bool) {
        self.answer(known)
    }

    fn noted(&self, known: &Vec<TokenRef<'_>>) -> (noted: Option<Self>) {
        if self.answer(known) {
            let mut made: T = self.share();
            made.mark(self);
            Some(made)
        } else {
            None
        }
    }
}

impl Cancels for CancellationToken {
    fn request(&mut self) {
        cancel(self);
    }
}

/// Whether cancelling `above` cancels `below` too, if only a moment later: `below` is the same token
/// or stands below it.
pub open spec fn reaches(above: CancellationToken, below: CancellationToken) -> bool {
    token_path(above).is_prefix_of(token_path(below))
}

/// Whether `below` is cancelled for certain once a request to cancel `above` has returned, whatever
/// others do at the same time: `above` is the same token, or the root of the tree of `below`.
pub open spec fn stops(above: CancellationToken, below: CancellationToken) -> bool {
    ||| token_path(above) == token_path(below)
    ||| token_path(above).len() == 1 && reaches(above, below)
}

/// Whether two tokens belong to different trees: cancelling one has no effect on the other.
pub open spec fn apart(a: CancellationToken, b: CancellationToken) -> bool {
    token_path(a)[0] != token_path(b)[0]
}

/// Cancellation is passed down: what reaches a token reaches the tokens that it reaches.
pub proof fn lemma_reaches_transitive(
    a: CancellationToken,
    b: CancellationToken,
    c: CancellationToken,
)
    requires
        reaches(a, b),
        reaches(b, c),
    ensures
        reaches(a, c),
{
    let (x, y, z) = (token_path(a), token_path(b), token_path(c));
    assert(x =~= z.subrange(0, x.len() as int)) by {
        assert forall|i: int| 0 <= i < x.len() implies x[i] == z[i] by {
            assert(x[i] == y.subrange(0, x.len() as int)[i]);
            assert(y[i] == z.subrange(0, y.len() as int)[i]);
        }
    }
}

/// Two tokens at the same depth of a tree that are not the same are left alone by each other, and
/// so are the tokens below them.
pub proof fn lemma_branches_are_separate(
    a: CancellationToken,
    b: CancellationToken,
    below_a: CancellationToken,
    below_b: CancellationToken,
)
    requires
        token_path(a).len() == token_path(b).len(),
        token_path(a) != token_path(b),
        reaches(a, below_a),
        reaches(b, below_b),
    ensures
        !reaches(below_a, below_b),
        !reaches(below_b, below_a),
{
    let len = token_path(a).len() as int;
    if reaches(below_a, below_b) {
        lemma_reaches_transitive(a, below_a, below_b);
        assert(token_path(a) == token_path(below_b).subrange(0, len));
        assert(token_path(b) == token_path(below_b).subrange(0, len));
    }
    if reaches(below_b, below_a) {
        lemma_reaches_transitive(b, below_b, below_a);
        assert(token_path(b) == token_path(below_a).subrange(0, len));
        assert(token_path(a) == token_path(below_a).subrange(0, len));
    }
}

} // verus!
