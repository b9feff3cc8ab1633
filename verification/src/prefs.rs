//! The persisted mirror-to-system preference: its text codec and the store
//! transitions.
//!
//! The preference lives in a per-user file holding the literal text `true` or
//! `false`, possibly surrounded by whitespace, which is trimmed before the
//! parse. A missing file means the default `false`, and the first read
//! creates it with that default. The surrounding application performs the
//! actual file I/O; here the file is modelled as `Option<Vec<u8>>` (`None`
//! when it does not exist), and every transition is verified against the
//! codec's specification.

use vstd::prelude::*;

use crate::error::AppError;

verus! {

/// The four bytes of the literal `true`.
pub open spec fn true_bytes() -> Seq<u8> {
    seq![116u8, 114u8, 117u8, 101u8]
}

/// The five bytes of the literal `false`.
pub open spec fn false_bytes() -> Seq<u8> {
    seq![102u8, 97u8, 108u8, 115u8, 101u8]
}

/// ASCII whitespace as trimmed around the stored literal: space, tab, line
/// feed, vertical tab, form feed, carriage return.
pub open spec fn is_space(b: u8) -> bool {
    b == 32 || (9 <= b && b <= 13)
}

/// `s` without its leading whitespace.
pub open spec fn trim_start(s: Seq<u8>) -> Seq<u8>
    decreases s.len(),
{
    if s.len() > 0 && is_space(s[0]) {
        trim_start(s.drop_first())
    } else {
        s
    }
}

/// `s` without its trailing whitespace.
pub open spec fn trim_end(s: Seq<u8>) -> Seq<u8>
    decreases s.len(),
{
    if s.len() > 0 && is_space(s.last()) {
        trim_end(s.drop_last())
    } else {
        s
    }
}

/// `s` without surrounding whitespace.
pub open spec fn trimmed(s: Seq<u8>) -> Seq<u8> {
    trim_end(trim_start(s))
}

/// What the file's bytes mean: `Some(v)` when, after trimming, they are
/// exactly the literal for `v`; `None` for any other text.
pub open spec fn parse_spec(s: Seq<u8>) -> Option<bool> {
    if trimmed(s) == true_bytes() {
        Some(true)
    } else if trimmed(s) == false_bytes() {
        Some(false)
    } else {
        None
    }
}

/// How a preference is written out: the bare literal, no surrounding text.
pub open spec fn encode_spec(v: bool) -> Seq<u8> {
    if v {
        true_bytes()
    } else {
        false_bytes()
    }
}

/// The parse as the store reports it: unrecognized text is a parse error.
pub open spec fn parse_result(s: Seq<u8>) -> Result<bool, AppError> {
    match parse_spec(s) {
        Some(b) => Ok(b),
        None => Err(AppError::ConfigParse),
    }
}

/// Tests one byte for the whitespace the codec trims.
fn is_space_byte(b: u8) -> (r: bool)
    ensures
        r == is_space(b),
{
    b == 32 || (9 <= b && b <= 13)
}

/// Dropping a leading run of whitespace is exactly what `trim_start` does.
proof fn lemma_trim_start_skip(s: Seq<u8>, i: int)
    requires
        0 <= i <= s.len(),
        forall|k: int| 0 <= k < i ==> is_space(s[k]),
        i == s.len() || !is_space(s[i]),
    ensures
        trim_start(s) == s.subrange(i, s.len() as int),
    decreases i,
{
    if i == 0 {
        assert(s.subrange(0, s.len() as int) =~= s);
    } else {
        let t = s.drop_first();
        assert forall|k: int| 0 <= k < i - 1 implies is_space(t[k]) by {
            assert(t[k] == s[k + 1]);
        }
        if i - 1 < t.len() {
            assert(t[i - 1] == s[i]);
        }
        lemma_trim_start_skip(t, i - 1);
        assert(t.subrange(i - 1, t.len() as int) =~= s.subrange(i, s.len() as int));
    }
}

/// Dropping a trailing run of whitespace is exactly what `trim_end` does.
proof fn lemma_trim_end_skip(s: Seq<u8>, j: int)
    requires
        0 <= j <= s.len(),
        forall|k: int| j <= k < s.len() ==> is_space(s[k]),
        j == 0 || !is_space(s[j - 1]),
    ensures
        trim_end(s) == s.subrange(0, j),
    decreases s.len(),
{
    if j == s.len() {
        assert(s.subrange(0, j) =~= s);
    } else {
        assert(is_space(s.last()));
        let t = s.drop_last();
        assert forall|k: int| j <= k < t.len() implies is_space(t[k]) by {
            assert(t[k] == s[k]);
        }
        if j > 0 {
            assert(t[j - 1] == s[j - 1]);
        }
        lemma_trim_end_skip(t, j);
        assert(t.subrange(0, j) =~= s.subrange(0, j));
    }
}

/// Parses the stored preference text: surrounding whitespace is trimmed and
/// the remainder must be exactly `true` or `false` (case-sensitive).
pub fn parse_preference(s: &[u8]) -> (r: Result<bool, AppError>)
    ensures
        r == parse_result(s@),
{
    let n = s.len();
    let mut i: usize = 0;
    while i < n && is_space_byte(s[i])
        invariant
            0 <= i <= n,
            n == s@.len(),
            forall|k: int| 0 <= k < i ==> is_space(s@[k]),
        decreases n - i,
    {
        i = i + 1;
    }
    let mut j: usize = n;
    while j > i && is_space_byte(s[j - 1])
        invariant
            i <= j <= n,
            n == s@.len(),
            forall|k: int| j <= k < n ==> is_space(s@[k]),
        decreases j,
    {
        j = j - 1;
    }
    proof {
        lemma_trim_start_skip(s@, i as int);
        let u = s@.subrange(i as int, n as int);
        assert forall|k: int| j - i <= k < u.len() implies is_space(u[k]) by {
            assert(u[k] == s@[i + k]);
        }
        if j > i {
            assert(u[j - i - 1] == s@[j - 1]);
        }
        lemma_trim_end_skip(u, j - i);
        assert(u.subrange(0, j - i) =~= s@.subrange(i as int, j as int));
        assert(trimmed(s@) == s@.subrange(i as int, j as int));
    }
    let len = j - i;
    if len == 4 && s[i] == 116 && s[i + 1] == 114 && s[i + 2] == 117 && s[i + 3] == 101 {
        proof {
            assert(s@.subrange(i as int, j as int) =~= true_bytes());
        }
        Ok(true)
    } else if len == 5 && s[i] == 102 && s[i + 1] == 97 && s[i + 2] == 108 && s[i + 3] == 115
        && s[i + 4] == 101 {
        proof {
            assert(s@.subrange(i as int, j as int) =~= false_bytes());
        }
        Ok(false)
    } else {
        proof {
            let w = s@.subrange(i as int, j as int);
            if w == true_bytes() {
                assert(w.len() == 4);
                assert(w[0] == 116 && w[1] == 114 && w[2] == 117 && w[3] == 101);
                assert(s@[i as int] == 116);
                assert(s@[i + 1] == 114);
                assert(s@[i + 2] == 117);
                assert(s@[i + 3] == 101);
            }
            if w == false_bytes() {
                assert(w.len() == 5);
                assert(s@[i as int] == 102);
                assert(s@[i + 1] == 97);
                assert(s@[i + 2] == 108);
                assert(s@[i + 3] == 115);
                assert(s@[i + 4] == 101);
            }
        }
        Err(AppError::ConfigParse)
    }
}

/// Serializes a preference as the literal text `true` or `false`.
pub fn encode_preference(v: bool) -> (r: Vec<u8>)
    ensures
        r@ == encode_spec(v),
{
    let mut r: Vec<u8> = Vec::new();
    if v {
        r.push(116);
        r.push(114);
        r.push(117);
        r.push(101);
        proof {
            assert(r@ =~= true_bytes());
        }
    } else {
        r.push(102);
        r.push(97);
        r.push(108);
        r.push(115);
        r.push(101);
        proof {
            assert(r@ =~= false_bytes());
        }
    }
    r
}

/// What a read returns for a given file state: the default `false` when the
/// file is missing, otherwise the parse of its bytes.
pub open spec fn read_value(file: Option<Seq<u8>>) -> Result<bool, AppError> {
    match file {
        None => Ok(false),
        Some(c) => parse_result(c),
    }
}

/// The file state after a read: a missing file has been created with the
/// encoded default, an existing file is untouched.
pub open spec fn file_after_read(file: Option<Seq<u8>>) -> Option<Seq<u8>> {
    match file {
        None => Some(encode_spec(false)),
        Some(c) => Some(c),
    }
}

/// The preference store, over the modelled file: `None` when the file does
/// not exist, `Some` with its bytes otherwise.
pub struct SettingsStore {
    pub file: Option<Vec<u8>>,
}

impl View for SettingsStore {
    type V = Option<Seq<u8>>;

    open spec fn view(&self) -> Option<Seq<u8>> {
        match self.file {
            Some(ref v) => Some(v@),
            None => None,
        }
    }
}

impl SettingsStore {
    /// A store whose file does not exist yet.
    pub fn new_missing() -> (s: SettingsStore)
        ensures
            s@ is None,
    {
        SettingsStore { file: None }
    }

    /// A store over an existing file with the given bytes.
    pub fn from_contents(contents: Vec<u8>) -> (s: SettingsStore)
        ensures
            s@ == Some(contents@),
    {
        SettingsStore { file: Some(contents) }
    }

    /// Overwrites the file with the encoded preference, unconditionally.
    pub fn write_preference(&mut self, v: bool)
        ensures
            final(self)@ == Some(encode_spec(v)),
    {
        self.file = Some(encode_preference(v));
    }

    /// Returns the persisted preference. A missing file is first created
    /// with the default `false`, which is then the result; text that is not
    /// a boolean literal is a parse error and the file is left as it was.
    pub fn read_preference(&mut self) -> (r: Result<bool, AppError>)
        ensures
            r == read_value(old(self)@),
            final(self)@ == file_after_read(old(self)@),
    {
        match &self.file {
            Some(c) => parse_preference(c.as_slice()),
            None => {
                self.write_preference(false);
                Ok(false)
            },
        }
    }
}

/// An encoded preference parses back to the value it encodes: the literals
/// carry no surrounding whitespace and the two are distinct.
pub proof fn lemma_parse_of_encode(v: bool)
    ensures
        parse_spec(encode_spec(v)) == Some(v),
{
    assert(trim_start(true_bytes()) == true_bytes());
    assert(trim_end(true_bytes()) == true_bytes());
    assert(trim_start(false_bytes()) == false_bytes());
    assert(trim_end(false_bytes()) == false_bytes());
    assert(true_bytes() != false_bytes());
}

/// Round trip: after writing a preference — whatever the file held before,
/// a write always leaves `Some(encode_spec(v))` — a read returns that same
/// value and leaves the file unchanged.
pub proof fn lemma_preference_round_trip(v: bool)
    ensures
        read_value(Some(encode_spec(v))) == Ok::<bool, AppError>(v),
        file_after_read(Some(encode_spec(v))) == Some(encode_spec(v)),
{
    lemma_parse_of_encode(v);
}

/// Default on missing: a read with no file returns `false` and leaves the
/// file holding text that encodes, and parses back as, `false`.
pub proof fn lemma_default_on_missing()
    ensures
        read_value(None::<Seq<u8>>) == Ok::<bool, AppError>(false),
        file_after_read(None::<Seq<u8>>) == Some(encode_spec(false)),
        parse_spec(encode_spec(false)) == Some(false),
{
    lemma_parse_of_encode(false);
}

} // verus!
