//! The access token that the site grants for an episode.

use vstd::prelude::*;

verus! {

/// An access token.
#[derive(Debug, Clone, PartialEq, Eq)]
pub struct Token {
    pub anime_sn: u32,
    pub login: bool,
    /// Meaning unknown.
    pub r18: u32,
    pub src: String,
    /// Meaning unknown; `1` once the advertisement has been served.
    pub time: u32,
    /// Whether the account is a VIP account.
    pub vip: bool,
}

impl Token {
    /// A token with the given fields.
    pub fn new(anime_sn: u32, login: bool, r18: u32, src: String, time: u32, vip: bool) -> (r:
        Token)
        ensures
            r.anime_sn == anime_sn,
            r.login == login,
            r.r18 == r18,
            r.src == src,
            r.time == time,
            r.vip == vip,
    {
        Token { anime_sn, login, r18, src, time, vip }
    }

    /// Whether the account is a VIP account.
    pub fn vip(&self) -> (r: bool)
        ensures
            r == self.vip,
    {
        self.vip
    }

    /// The token's `time` field.
    pub fn time(&self) -> (r: u32)
        ensures
            r == self.time,
    {
        self.time
    }
}

/// The error object the token endpoint answers with.
#[derive(Debug, Clone, PartialEq, Eq)]
pub struct TokenError {
    code: String,
    message: String,
}

/// How a token error reads: `[code]: {code}, [message]: {message}`.
pub open spec fn token_error_text(code: Seq<char>, message: Seq<char>) -> Seq<char> {
    "[code]: "@ + code + ", [message]: "@ + message
}

impl TokenError {
    /// An error with `code` and `message`.
    pub fn new(code: String, message: String) -> (r: TokenError)
        ensures
            r.code_view() == code@,
            r.message_view() == message@,
    {
        TokenError { code, message }
    }

    /// The error code.
    pub closed spec fn code_view(&self) -> Seq<char> {
        self.code@
    }

    /// The error message.
    pub closed spec fn message_view(&self) -> Seq<char> {
        self.message@
    }

    /// The error code.
    pub fn code(&self) -> (r: &String)
        ensures
            r@ == self.code_view(),
    {
        &self.code
    }

    /// The error message.
    pub fn message(&self) -> (r: &String)
        ensures
            r@ == self.message_view(),
    {
        &self.message
    }

    /// The text that the error displays as.
    pub fn to_display_string(&self) -> (r: String)
        ensures
            r@ == token_error_text(self.code_view(), self.message_view()),
    {
        let mut s = String::from_str("[code]: ");
        s.append(self.code.as_str());
        s.append(", [message]: ");
        s.append(self.message.as_str());
        s
    }
}

} // verus!
