use vstd::prelude::*;

verus! {

/// An access token as the token endpoint returned it, together with the
/// wall-clock second at which it was issued. Immutable once constructed: a
/// refresh produces a new value, never a change in place.
#[derive(Debug)]
pub struct Token {
    pub access_token: String,
    pub token_type: String,
    /// Lifetime in seconds, counted from `issued_at`.
    pub expires_in: u64,
    pub refresh_token: Option<String>,
    pub id_token: Option<String>,
    /// Seconds since the Unix epoch at which the token was captured.
    pub issued_at: u64,
}

/// The two option values hold the same characters, or are both absent.
pub open spec fn opt_str_view_eq(a: Option<String>, b: Option<String>) -> bool {
    match (a, b) {
        (Some(x), Some(y)) => x@ == y@,
        (None, None) => true,
        _ => false,
    }
}

/// The two tokens agree field by field, by character content.
pub open spec fn token_view_eq(a: Token, b: Token) -> bool {
    &&& a.access_token@ == b.access_token@
    &&& a.token_type@ == b.token_type@
    &&& a.expires_in == b.expires_in
    &&& opt_str_view_eq(a.refresh_token, b.refresh_token)
    &&& opt_str_view_eq(a.id_token, b.id_token)
    &&& a.issued_at == b.issued_at
}

impl Token {
    /// A token with the given response fields, captured at `issued_at`.
    pub fn new(
        access_token: String,
        token_type: String,
        expires_in: u64,
        refresh_token: Option<String>,
        id_token: Option<String>,
        issued_at: u64,
    ) -> (r: Token)
        ensures
            r == (Token {
                access_token,
                token_type,
                expires_in,
                refresh_token,
                id_token,
                issued_at,
            }),
    {
        Token { access_token, token_type, expires_in, refresh_token, id_token, issued_at }
    }

    /// The second at which the token stops being valid.
    pub open spec fn spec_expires_at(self) -> int {
        self.issued_at + self.expires_in
    }

    /// The token is expired, or expires within `margin` seconds of `now`.
    pub open spec fn spec_is_expired_within(self, margin: u64, now: u64) -> bool {
        now + margin >= self.spec_expires_at()
    }

    /// Whether the token is expired, or will expire within `margin` seconds
    /// of the wall-clock second `now`.
    pub fn is_expired_within(&self, margin: u64, now: u64) -> (r: bool)
        ensures
            r == self.spec_is_expired_within(margin, now),
    {
        (now as u128) + (margin as u128) >= (self.issued_at as u128) + (self.expires_in as u128)
    }
}

fn clone_opt_string(s: &Option<String>) -> (r: Option<String>)
    ensures
        opt_str_view_eq(r, *s),
{
    match s {
        Some(v) => Some(v.clone()),
        None => None,
    }
}

impl Clone for Token {
    /// A field-by-field copy; every character and second is kept.
    fn clone(&self) -> (r: Self)
        ensures
            token_view_eq(r, *self),
    {
        Token {
            access_token: self.access_token.clone(),
            token_type: self.token_type.clone(),
            expires_in: self.expires_in,
            refresh_token: clone_opt_string(&self.refresh_token),
            id_token: clone_opt_string(&self.id_token),
            issued_at: self.issued_at,
        }
    }
}

} // verus!
