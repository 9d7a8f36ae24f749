//! Credentials that must not leak into logs.
use vstd::prelude::*;
use vstd::string::StringSliceAdditionalSpecFns;

verus! {

/// A secret value: a token, a client id, a device code.
#[derive(Clone, Default)]
pub struct Secret(pub(crate) String);

/// A secret to be sent as a bearer token.
pub struct Bearer<'a>(pub(crate) &'a Secret);

impl Secret {
    pub closed spec fn view(&self) -> Seq<char> {
        self.0@
    }

    /// The secret's length in bytes, all that may be shown of it.
    pub closed spec fn byte_len(&self) -> usize {
        vstd::utf8::encode_utf8(self.0@).len() as usize
    }

    /// The secret as it may appear in logs: one `*` per byte of it.
    pub fn masked(&self) -> (r: String)
        ensures
            r@ == Seq::new(self.byte_len() as nat, |_i: int| '*'),
    {
        let text = self.0.as_str();
        let n = text.len();
        assert(text@ == self.0@);
        let mut out = String::new();
        let mut k: usize = 0;
        proof {
            reveal_strlit("*");
        }
        while k < n
            invariant
                k <= n,
                n == self.byte_len(),
                out@ == Seq::new(k as nat, |_i: int| '*'),
            decreases n - k,
        {
            out.append("*");
            proof {
                reveal_strlit("*");
                assert(out@ =~= Seq::new((k + 1) as nat, |_i: int| '*'));
            }
            k += 1;
        }
        out
    }

    pub fn new(value: String) -> (r: Self)
        ensures
            r@ == value@,
    {
        Secret(value)
    }

    /// The secret itself, for the places that must send it.
    pub fn access_secret_value(&self) -> (r: &str)
        ensures
            r@ == self@,
    {
        self.0.as_str()
    }

    pub fn bearer(&self) -> (r: Bearer<'_>)
        ensures
            r@ == self@,
    {
        Bearer(self)
    }
}

impl<'a> Bearer<'a> {
    pub closed spec fn view(&self) -> Seq<char> {
        self.0@
    }

    /// The secret this bearer token carries.
    pub fn secret(&self) -> (r: &'a Secret)
        ensures
            r@ == self@,
    {
        self.0
    }
}

} // verus!
