//! How the host finds out its own address, for the URLs of its users.

use crate::text;
use crate::text::{byte_len, contains_char, first_word_of, is_empty, trim};
use vstd::prelude::*;

verus! {

/// The address that stands for one that could not be found out.
pub const UNKNOWN_ADDRESS: &'static str = "UNKNOWN_IP";

/// How many services are asked.
pub const SERVICES: usize = 3;

/// A text could be an address: short, and without what only pages and messages hold.
pub open spec fn could_be_address(s: Seq<char>) -> bool {
    !s.contains('<') && !s.contains(' ') && text::bytes(s) <= 45
}

/// Whether a text is an address. `parses` says whether it is one by its form.
pub fn looks_like_ip(s: &str, parses: bool) -> (r: bool)
    ensures
        r == (could_be_address(s@) && parses),
{
    !contains_char(s, '<') && !contains_char(s, ' ') && byte_len(s) <= 45 && parses
}

/// How far the search for the address is.
#[derive(Debug)]
pub enum Lookup {
    /// A service outside is asked.
    Service(usize),
    /// The host itself is asked.
    Host,
    Found(String),
    /// Nobody knows it.
    Unknown,
}

/// What was answered: whether the program that asked succeeded, and what it printed.
#[derive(Debug)]
pub struct Answer {
    pub success: bool,
    pub stdout: String,
}

/// What a service answered, where that is an address.
pub open spec fn address_in(a: Option<Answer>, parses: bool) -> Option<Seq<char>> {
    match a {
        Some(x) => if x.success && text::trimmed(x.stdout@).len() > 0 && could_be_address(
            text::trimmed(x.stdout@),
        ) && parses {
            Some(text::trimmed(x.stdout@))
        } else {
            None
        },
        None => None,
    }
}

/// The URL of a service.
pub open spec fn service(i: int) -> Seq<char> {
    if i == 0 {
        "https://ifconfig.me"@
    } else if i == 1 {
        "https://icanhazip.com"@
    } else {
        "https://api.ipify.org"@
    }
}

impl Lookup {
    /// Begins the search.
    pub fn start() -> (r: Lookup)
        ensures
            r == Lookup::Service(0),
    {
        Lookup::Service(0)
    }

    /// The URL of the service that is asked next.
    pub fn url(&self) -> (r: Option<&'static str>)
        ensures
            match *self {
                Lookup::Service(i) => r matches Some(u) && u@ == service(i as int),
                _ => r is None,
            },
    {
        match self {
            Lookup::Service(i) => Some(
                if *i == 0 {
                    "https://ifconfig.me"
                } else if *i == 1 {
                    "https://icanhazip.com"
                } else {
                    "https://api.ipify.org"
                },
            ),
            _ => None,
        }
    }

    /// Goes on with an answer. `parses` says whether what it printed, without the space around it,
    /// is an address by its form.
    pub fn next(self, answer: Option<Answer>, parses: bool) -> (r: Lookup)
        ensures
            match self {
                Lookup::Service(i) => match address_in(answer, parses) {
                    Some(a) => (r matches Lookup::Found(x) && x@ == a),
                    None => if i + 1 < SERVICES {
                        r == Lookup::Service((i + 1) as usize)
                    } else {
                        r == Lookup::Host
                    },
                },
                Lookup::Host => match answer {
                    Some(x) => match text::first_word(x.stdout@) {
                        Some(w) => (r matches Lookup::Found(y) && y@ == w),
                        None => r == Lookup::Unknown,
                    },
                    None => r == Lookup::Unknown,
                },
                _ => r == self,
            },
    {
        match self {
            Lookup::Service(i) => {
                if let Some(x) = answer {
                    let t = trim(&x.stdout);
                    if x.success && !is_empty(&t) && looks_like_ip(&t, parses) {
                        return Lookup::Found(t);
                    }
                }
                if i < SERVICES - 1 {
                    Lookup::Service(i + 1)
                } else {
                    Lookup::Host
                }
            },
            Lookup::Host => match answer {
                Some(x) => match first_word_of(&x.stdout) {
                    Some(w) => Lookup::Found(w),
                    None => Lookup::Unknown,
                },
                None => Lookup::Unknown,
            },
            other => other,
        }
    }
}

/// **An address is taken from the first service that gives one**: what it printed, without the blanks
/// around it, where that is an address by its form and holds nothing that only pages and messages do.
pub proof fn law_address_is_what_a_service_gave(
    i: usize,
    x: Answer,
    parses: bool,
    a: Lookup,
    none: Lookup,
    url: Option<&'static str>,
)
    requires
        i < 3,
        call_ensures(Lookup::url, (&Lookup::Service(i),), url),
        call_ensures(Lookup::next, (Lookup::Service(i), Some(x), parses), a),
        call_ensures(Lookup::next, (Lookup::Service(i), Option::<Answer>::None, parses), none),
    ensures
        url matches Some(u) && u@ == (if i == 0 {
            "https://ifconfig.me"@
        } else if i == 1 {
            "https://icanhazip.com"@
        } else {
            "https://api.ipify.org"@
        }),
        x.success && parses && 0 < text::trimmed(x.stdout@).len() && text::bytes(
            text::trimmed(x.stdout@),
        ) <= 45 && (forall|j: int|
            0 <= j < text::trimmed(x.stdout@).len() ==> (#[trigger] text::trimmed(x.stdout@)[j])
                != '<' && text::trimmed(x.stdout@)[j] != ' ') ==> (a matches Lookup::Found(s) && s@
            == text::trimmed(x.stdout@)),
        a matches Lookup::Found(s) ==> x.success && parses && s@ == text::trimmed(x.stdout@)
            && !s@.contains('<') && !s@.contains(' ') && text::bytes(s@) <= 45,
        a is Found || a == none,
        i < 2 ==> none == Lookup::Service((i + 1) as usize),
        i == 2 ==> none is Host,
{
}

/// **The host itself is asked last**: the first word that it prints is the address.
pub proof fn law_host_is_asked_last(
    x: Answer,
    w: Seq<char>,
    rest: Seq<char>,
    parses: bool,
    a: Lookup,
    none: Lookup,
    first: Lookup,
)
    requires
        call_ensures(Lookup::start, (), first),
        call_ensures(Lookup::next, (Lookup::Host, Some(x), parses), a),
        call_ensures(Lookup::next, (Lookup::Host, Option::<Answer>::None, parses), none),
        w.len() > 0,
        forall|i: int| 0 <= i < w.len() ==> !text::is_space(#[trigger] w[i]),
        x.stdout@ == w + seq![' '] + rest,
    ensures
        first == Lookup::Service(0),
        a matches Lookup::Found(s) && s@ == w,
        none is Unknown,
{
    text::lemma_first_word(w, seq![' '] + rest);
    assert(x.stdout@ =~= w + (seq![' '] + rest));
}

/// **An address is short, and holds neither a blank nor the beginning of a tag.**
pub proof fn law_addresses_look_like_one(s: &str, parses: bool, i: int, r: bool)
    requires
        call_ensures(looks_like_ip, (s, parses), r),
    ensures
        !parses ==> !r,
        text::bytes(s@) > 45 ==> !r,
        0 <= i < s@.len() && (s@[i] == '<' || s@[i] == ' ') ==> !r,
        parses && text::bytes(s@) <= 45 && (forall|j: int|
            0 <= j < s@.len() ==> (#[trigger] s@[j]) != '<' && s@[j] != ' ') ==> r,
{
}

} // verus!
