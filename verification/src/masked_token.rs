//! The holder of the signing secret: usable in full for signing, but
//! displayable only in a masked form that keeps all but a short prefix hidden.

use vstd::prelude::*;
use vstd::string::StrSliceExecFns;

verus! {

/// Number of leading characters of the secret that `mask` leaves visible.
pub const MASK_PREFIX_LEN: usize = 5;

/// The masked form of a secret: its first `MASK_PREFIX_LEN` characters,
/// then one `'*'` for every remaining character.
pub open spec fn mask_spec(s: Seq<char>) -> Seq<char>
    recommends
        s.len() >= MASK_PREFIX_LEN,
{
    s.take(MASK_PREFIX_LEN as int) + Seq::new((s.len() - MASK_PREFIX_LEN) as nat, |i: int| '*')
}

/// The signing secret, immutable for the process lifetime. The raw value is
/// handed out only for signing and verification; logs get `mask()` instead.
pub struct MaskedToken {
    token: String,
}

impl MaskedToken {
    /// The secret this holder carries.
    pub closed spec fn secret(&self) -> Seq<char> {
        self.token@
    }

    /// A holder is well formed when the secret is at least as long as the
    /// visible prefix, so that masking never runs out of characters.
    pub open spec fn wf(&self) -> bool {
        self.secret().len() >= MASK_PREFIX_LEN
    }

    /// Wraps a secret that is known to be long enough. A secret shorter than
    /// the visible prefix is a fatal misconfiguration and is ruled out here;
    /// callers that cannot guarantee the length use `try_new`.
    pub fn new(token: String) -> (r: Self)
        requires
            token@.len() >= MASK_PREFIX_LEN,
        ensures
            r.wf(),
            r.secret() == token@,
    {
        Self { token }
    }

    /// Checked construction: rejects a secret shorter than the visible prefix.
    pub fn try_new(token: String) -> (r: Option<Self>)
        ensures
            r is Some <==> token@.len() >= MASK_PREFIX_LEN,
            r matches Some(t) ==> t.wf() && t.secret() == token@,
    {
        if token.as_str().unicode_len() >= MASK_PREFIX_LEN {
            Some(Self { token })
        } else {
            None
        }
    }

    /// The raw secret, for signing and verification only.
    pub fn as_str(&self) -> (r: &str)
        ensures
            r@ == self.secret(),
    {
        self.token.as_str()
    }

    /// The display-safe form of the secret: prefix visible, remainder starred.
    pub fn mask(&self) -> (r: String)
        requires
            self.wf(),
        ensures
            r@ == mask_spec(self.secret()),
    {
        let n = self.token.as_str().unicode_len();
        let prefix = self.token.as_str().substring_char(0, MASK_PREFIX_LEN);
        let mut r = prefix.to_owned();
        assert(r@ =~= mask_spec_partial(self.secret(), MASK_PREFIX_LEN as int));
        let mut i: usize = MASK_PREFIX_LEN;
        while i < n
            invariant
                MASK_PREFIX_LEN <= i <= n,
                n == self.secret().len(),
                r@ == mask_spec_partial(self.secret(), i as int),
            decreases n - i,
        {
            r.append("*");
            proof {
                reveal_strlit("*");
                assert(r@ =~= mask_spec_partial(self.secret(), i + 1));
            }
            i += 1;
        }
        proof {
            assert(r@ =~= mask_spec(self.secret()));
        }
        r
    }
}

/// The masked form built up to position `i`: the visible prefix and the stars
/// for the characters before `i`.
spec fn mask_spec_partial(s: Seq<char>, i: int) -> Seq<char>
    recommends
        MASK_PREFIX_LEN <= i <= s.len(),
{
    s.take(MASK_PREFIX_LEN as int) + Seq::new((i - MASK_PREFIX_LEN) as nat, |j: int| '*')
}

} // verus!
