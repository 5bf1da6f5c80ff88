use vstd::prelude::*;

verus! {

/// A character that may separate the alphanumeric runs of an account
/// identifier.
pub open spec fn is_account_separator(c: char) -> bool {
    c == '-' || c == '_' || c == '.'
}

/// A character admitted in an account identifier: a lowercase ASCII letter, an
/// ASCII digit, or one of the three separators.
pub open spec fn is_account_char(c: char) -> bool {
    ('a' <= c && c <= 'z') || ('0' <= c && c <= '9') || is_account_separator(c)
}

/// The platform's account-identifier grammar: 2 to 64 characters, each one
/// admitted, the first and last alphanumeric, and no two separators adjacent.
pub open spec fn valid_account_id(s: Seq<char>) -> bool {
    &&& 2 <= s.len() <= 64
    &&& forall|i: int| 0 <= i < s.len() ==> is_account_char(#[trigger] s[i])
    &&& !is_account_separator(s[0])
    &&& !is_account_separator(s[s.len() - 1])
    &&& forall|i: int|
        1 <= i < s.len() ==> !(is_account_separator(s[i - 1]) && is_account_separator(
            #[trigger] s[i],
        ))
}

/// An account identity: the name under which an account exists on the
/// platform.
#[derive(Debug, PartialEq, Eq)]
pub struct AccountId {
    pub id: String,
}

impl View for AccountId {
    type V = Seq<char>;

    open spec fn view(&self) -> Seq<char> {
        self.id@
    }
}

impl AccountId {
    /// The identifier obeys the platform's account grammar.
    pub open spec fn wf(&self) -> bool {
        valid_account_id(self@)
    }

    /// Checks `id` against the account grammar and wraps it.
    pub fn new(id: String) -> (r: Option<AccountId>)
        ensures
            r is Some <==> valid_account_id(id@),
            r matches Some(a) ==> a@ == id@ && a.wf(),
    {
        if str_is_valid_account_id(id.as_str()) {
            Some(AccountId { id })
        } else {
            None
        }
    }

    /// Whether two account identities name the same account.
    pub fn same_as(&self, other: &AccountId) -> (r: bool)
        ensures
            r == (self@ == other@),
    {
        self.id == other.id
    }
}

/// Every admitted account character lies in the ASCII range.
proof fn lemma_account_char_is_ascii(c: char)
    ensures
        is_account_char(c) ==> '\0' <= c <= '\u{7f}',
{
}

/// Checks a string against the platform's account-identifier grammar.
pub fn str_is_valid_account_id(s: &str) -> (r: bool)
    ensures
        r == valid_account_id(s@),
{
    if !s.is_ascii() {
        proof {
            let i = choose|i: int|
                !(0 <= i < s@.len() ==> '\0' <= #[trigger] s@[i] <= '\u{7f}');
            lemma_account_char_is_ascii(s@[i]);
        }
        return false;
    }
    let b = s.as_bytes();
    proof {
        vstd::string::is_ascii_spec_bytes(s);
        assert(b@ =~= Seq::new(s@.len(), |j: int| s@[j] as u8));
    }
    let n = b.len();
    if n < 2 || n > 64 {
        return false;
    }
    let mut i: usize = 0;
    let mut prev_sep: bool = true;
    while i < n
        invariant
            s.is_ascii(),
            b@.len() == s@.len(),
            forall|j: int| 0 <= j < s@.len() ==> b@[j] == #[trigger] s@[j] as u8,
            2 <= n <= 64,
            n == s@.len(),
            0 <= i <= n,
            forall|j: int| 0 <= j < i ==> is_account_char(#[trigger] s@[j]),
            i > 0 ==> !is_account_separator(s@[0]),
            forall|j: int|
                1 <= j < i ==> !(is_account_separator(s@[j - 1]) && is_account_separator(
                    #[trigger] s@[j],
                )),
            prev_sep == if i == 0 {
                true
            } else {
                is_account_separator(s@[i - 1])
            },
        decreases n - i,
    {
        let c = b[i];
        proof {
            lemma_byte_classifies_char(s@[i as int], c);
        }
        let sep = c == 45 || c == 95 || c == 46;
        let alnum = (c >= 97 && c <= 122) || (c >= 48 && c <= 57);
        if !sep && !alnum {
            return false;
        }
        if sep && prev_sep {
            return false;
        }
        prev_sep = sep;
        i += 1;
    }
    !prev_sep
}

/// For an ASCII character, the byte of its encoding decides the account
/// character classes.
proof fn lemma_byte_classifies_char(ch: char, b: u8)
    requires
        '\0' <= ch <= '\u{7f}',
        b == ch as u8,
    ensures
        is_account_separator(ch) <==> (b == 45 || b == 95 || b == 46),
        is_account_char(ch) <==> ((b >= 97 && b <= 122) || (b >= 48 && b <= 57) || b == 45 || b == 95
            || b == 46),
{
}

} // verus!
