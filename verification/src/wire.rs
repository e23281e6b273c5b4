use vstd::prelude::*;
use vstd::string::StrSliceExecFns;
use vstd::string::StringExecFns;

verus! {

// ---------------------------------------------------------------------------
// Case-insensitive key comparison
// ---------------------------------------------------------------------------

/// The code point of `c`, with an ASCII capital letter folded to lower case.
pub open spec fn fold_char(c: char) -> int {
    if 65 <= c as int && c as int <= 90 {
        c as int + 32
    } else {
        c as int
    }
}

/// Case-insensitive equality of two metadata keys: equal length, and equal
/// character by character once ASCII capitals are folded to lower case.
pub open spec fn keys_match(a: Seq<char>, b: Seq<char>) -> bool {
    a.len() == b.len() && forall|i: int| 0 <= i < a.len() ==> fold_char(a[i]) == fold_char(b[i])
}

/// Folds one character as `fold_char` does.
fn fold_char_exec(c: char) -> (r: u32)
    ensures
        r == fold_char(c),
{
    let u = c as u32;
    if 65 <= u && u <= 90 {
        u + 32
    } else {
        u
    }
}

/// Decides `keys_match` on two keys.
pub fn keys_match_exec(a: &str, b: &str) -> (r: bool)
    ensures
        r == keys_match(a@, b@),
{
    let alen = a.unicode_len();
    let blen = b.unicode_len();
    if alen != blen {
        return false;
    }
    let mut i: usize = 0;
    while i < alen
        invariant
            alen == a@.len(),
            blen == b@.len(),
            alen == blen,
            i <= alen,
            forall|j: int| 0 <= j < i ==> fold_char(a@[j]) == fold_char(b@[j]),
        decreases alen - i,
    {
        if fold_char_exec(a.get_char(i)) != fold_char_exec(b.get_char(i)) {
            return false;
        }
        i = i + 1;
    }
    true
}

/// Plain equality of two strings, decided character by character.
pub fn str_eq(a: &str, b: &str) -> (r: bool)
    ensures
        r == (a@ == b@),
{
    let alen = a.unicode_len();
    let blen = b.unicode_len();
    if alen != blen {
        return false;
    }
    let mut i: usize = 0;
    while i < alen
        invariant
            alen == a@.len(),
            blen == b@.len(),
            alen == blen,
            i <= alen,
            forall|j: int| 0 <= j < i ==> a@[j] == b@[j],
        decreases alen - i,
    {
        if a.get_char(i) != b.get_char(i) {
            return false;
        }
        i = i + 1;
    }
    proof {
        assert(a@ =~= b@);
    }
    true
}

// ---------------------------------------------------------------------------
// Metadata
// ---------------------------------------------------------------------------

/// One metadata mapping entry as the specifications see it: a key and a value.
pub type EntryView = (Seq<char>, Seq<char>);

/// The first value stored under `key` in `meta`, if any.
pub open spec fn get_value(meta: Seq<EntryView>, key: Seq<char>) -> Option<Seq<char>>
    decreases meta.len(),
{
    if meta.len() == 0 {
        None
    } else if keys_match(meta[0].0, key) {
        Some(meta[0].1)
    } else {
        get_value(meta.drop_first(), key)
    }
}

/// `meta` with every entry stored under `key` removed.
pub open spec fn remove_key(meta: Seq<EntryView>, key: Seq<char>) -> Seq<EntryView>
    decreases meta.len(),
{
    if meta.len() == 0 {
        Seq::empty()
    } else {
        let rest = remove_key(meta.drop_first(), key);
        if keys_match(meta[0].0, key) {
            rest
        } else {
            seq![meta[0]] + rest
        }
    }
}

/// `meta` with the entries under `key` replaced by the single entry
/// `(key, value)`, appended at the end.
pub open spec fn set_value(meta: Seq<EntryView>, key: Seq<char>, value: Seq<char>) -> Seq<
    EntryView,
> {
    remove_key(meta, key).push((key, value))
}

/// Every value stored under `key` in `meta`, in insertion order.
pub open spec fn values_for(meta: Seq<EntryView>, key: Seq<char>) -> Seq<Seq<char>>
    decreases meta.len(),
{
    if meta.len() == 0 {
        Seq::empty()
    } else {
        let rest = values_for(meta.drop_first(), key);
        if keys_match(meta[0].0, key) {
            seq![meta[0].1] + rest
        } else {
            rest
        }
    }
}

/// A metadata mapping: string keys, compared case-insensitively, each with one
/// or more string values, kept in insertion order.
#[derive(Clone, Debug)]
pub struct Metadata {
    pub entries: Vec<(String, String)>,
}

impl View for Metadata {
    type V = Seq<EntryView>;

    open spec fn view(&self) -> Seq<EntryView> {
        Seq::new(self.entries@.len(), |i: int| (self.entries@[i].0@, self.entries@[i].1@))
    }
}

impl Metadata {
    /// An empty mapping.
    pub fn new() -> (r: Metadata)
        ensures
            r@ == Seq::<EntryView>::empty(),
    {
        let r = Metadata { entries: Vec::new() };
        proof {
            assert(r@ =~= Seq::<EntryView>::empty());
        }
        r
    }

    /// The first value stored under `key`, compared case-insensitively.
    pub fn get(&self, key: &str) -> (r: Option<String>)
        ensures
            match r {
                Some(v) => get_value(self@, key@) == Some(v@),
                None => get_value(self@, key@) is None,
            },
    {
        proof {
            assert(self@.skip(0) =~= self@);
        }
        let mut i: usize = 0;
        while i < self.entries.len()
            invariant
                i <= self.entries@.len(),
                get_value(self@.skip(i as int), key@) == get_value(self@, key@),
            decreases self.entries@.len() - i,
        {
            proof {
                assert(self@.skip(i as int)[0] == self@[i as int]);
                assert(self@.skip(i as int).drop_first() =~= self@.skip(i + 1 as int));
            }
            let e = &self.entries[i];
            if keys_match_exec(e.0.as_str(), key) {
                return Some(e.1.clone());
            }
            i = i + 1;
        }
        proof {
            assert(self@.skip(self.entries@.len() as int) =~= Seq::<EntryView>::empty());
        }
        None
    }

    /// Replaces every entry under `key` (compared case-insensitively) with the
    /// single entry `(key, value)`, appended at the end.
    pub fn set(&mut self, key: String, value: String)
        ensures
            final(self)@ == set_value(old(self)@, key@, value@),
    {
        let ghost orig = self@;
        let mut kept: Vec<(String, String)> = Vec::new();
        proof {
            assert(orig.skip(0) =~= orig);
            assert(Seq::new(kept@.len(), |j: int| (kept@[j].0@, kept@[j].1@)) =~= Seq::<
                EntryView,
            >::empty());
            assert(Seq::<EntryView>::empty() + remove_key(orig, key@) =~= remove_key(orig, key@));
        }
        let mut i: usize = 0;
        while i < self.entries.len()
            invariant
                i <= self.entries@.len(),
                self@ == orig,
                remove_key(orig, key@) == Seq::new(
                    kept@.len(),
                    |j: int| (kept@[j].0@, kept@[j].1@),
                ) + remove_key(orig.skip(i as int), key@),
            decreases self.entries@.len() - i,
        {
            proof {
                assert(orig.skip(i as int)[0] == orig[i as int]);
                assert(orig.skip(i as int).drop_first() =~= orig.skip(i + 1 as int));
            }
            let e = &self.entries[i];
            if !keys_match_exec(e.0.as_str(), key.as_str()) {
                let ghost kept0 = kept@;
                kept.push((e.0.clone(), e.1.clone()));
                proof {
                    assert(Seq::new(kept@.len(), |j: int| (kept@[j].0@, kept@[j].1@)) =~= Seq::new(
                        kept0.len(),
                        |j: int| (kept0[j].0@, kept0[j].1@),
                    ).push(orig[i as int]));
                    assert(seq![orig[i as int]] + remove_key(orig.skip(i + 1 as int), key@)
                        =~= Seq::empty().push(orig[i as int]) + remove_key(
                        orig.skip(i + 1 as int),
                        key@,
                    ));
                    assert(Seq::new(kept0.len(), |j: int| (kept0[j].0@, kept0[j].1@)).push(
                        orig[i as int],
                    ) + remove_key(orig.skip(i + 1 as int), key@) =~= Seq::new(
                        kept0.len(),
                        |j: int| (kept0[j].0@, kept0[j].1@),
                    ) + (seq![orig[i as int]] + remove_key(orig.skip(i + 1 as int), key@)));
                }
            }
            i = i + 1;
        }
        proof {
            assert(orig.skip(orig.len() as int) =~= Seq::<EntryView>::empty());
            assert(remove_key(orig.skip(orig.len() as int), key@) =~= Seq::<EntryView>::empty());
            assert(remove_key(orig, key@) =~= Seq::new(
                kept@.len(),
                |j: int| (kept@[j].0@, kept@[j].1@),
            ));
        }
        let ghost kept_final = kept@;
        kept.push((key, value));
        self.entries = kept;
        proof {
            assert(self@ =~= Seq::new(
                kept_final.len(),
                |j: int| (kept_final[j].0@, kept_final[j].1@),
            ).push((key@, value@)));
        }
    }

    /// Adds one more value under `key`, keeping any values already present.
    pub fn append(&mut self, key: String, value: String)
        ensures
            final(self)@ == old(self)@.push((key@, value@)),
    {
        self.entries.push((key, value));
        proof {
            assert(self@ =~= old(self)@.push((key@, value@)));
        }
    }

    /// Every value stored under `key` (compared case-insensitively), in
    /// insertion order.
    pub fn get_all(&self, key: &str) -> (r: Vec<String>)
        ensures
            Seq::new(r@.len(), |j: int| r@[j]@) == values_for(self@, key@),
    {
        let mut out: Vec<String> = Vec::new();
        proof {
            assert(self@.skip(0) =~= self@);
            assert(Seq::new(out@.len(), |j: int| out@[j]@) =~= Seq::<Seq<char>>::empty());
            assert(Seq::<Seq<char>>::empty() + values_for(self@, key@) =~= values_for(
                self@,
                key@,
            ));
        }
        let mut i: usize = 0;
        while i < self.entries.len()
            invariant
                i <= self.entries@.len(),
                values_for(self@, key@) == Seq::new(out@.len(), |j: int| out@[j]@) + values_for(
                    self@.skip(i as int),
                    key@,
                ),
            decreases self.entries@.len() - i,
        {
            proof {
                assert(self@.skip(i as int)[0] == self@[i as int]);
                assert(self@.skip(i as int).drop_first() =~= self@.skip(i + 1 as int));
            }
            let e = &self.entries[i];
            if keys_match_exec(e.0.as_str(), key) {
                let ghost out0 = out@;
                out.push(e.1.clone());
                proof {
                    assert(seq![self@[i as int].1] + values_for(self@.skip(i + 1 as int), key@)
                        =~= Seq::empty().push(self@[i as int].1) + values_for(
                        self@.skip(i + 1 as int),
                        key@,
                    ));
                    assert(Seq::new(out@.len(), |j: int| out@[j]@) =~= Seq::new(
                        out0.len(),
                        |j: int| out0[j]@,
                    ).push(self@[i as int].1));
                    assert(Seq::new(out0.len(), |j: int| out0[j]@).push(self@[i as int].1)
                        + values_for(self@.skip(i + 1 as int), key@) =~= Seq::new(
                        out0.len(),
                        |j: int| out0[j]@,
                    ) + (seq![self@[i as int].1] + values_for(self@.skip(i + 1 as int), key@)));
                }
            }
            i = i + 1;
        }
        proof {
            assert(self@.skip(self.entries@.len() as int) =~= Seq::<EntryView>::empty());
            assert(values_for(self@, key@) =~= Seq::new(out@.len(), |j: int| out@[j]@));
        }
        out
    }
}

// ---------------------------------------------------------------------------
// Requests, responses, statuses, and the handler's native error
// ---------------------------------------------------------------------------

/// The shape of a request as the specifications see it: an opaque body and
/// the metadata entries travelling with it.
pub struct RequestView {
    pub body: Seq<char>,
    pub meta: Seq<EntryView>,
}

/// The shape of a response as the specifications see it.
pub struct ResponseView {
    pub body: Seq<char>,
    pub meta: Seq<EntryView>,
}

/// A request: an opaque body plus a metadata mapping.
#[derive(Clone, Debug)]
pub struct Request {
    pub body: String,
    pub metadata: Metadata,
}

impl View for Request {
    type V = RequestView;

    open spec fn view(&self) -> RequestView {
        RequestView { body: self.body@, meta: self.metadata@ }
    }
}

impl Request {
    /// A request carrying `body` and no metadata.
    pub fn new(body: String) -> (r: Request)
        ensures
            r@.body == body@,
            r@.meta == Seq::<EntryView>::empty(),
    {
        Request { body, metadata: Metadata::new() }
    }
}

/// A response: an opaque body plus a metadata mapping, produced either by the
/// innermost handler or synthesized from a rejection [`Status`].
#[derive(Clone, Debug)]
pub struct Response {
    pub body: String,
    pub metadata: Metadata,
}

impl View for Response {
    type V = ResponseView;

    open spec fn view(&self) -> ResponseView {
        ResponseView { body: self.body@, meta: self.metadata@ }
    }
}

/// The fixed set of terminal status codes.
#[derive(Clone, Copy, Debug, PartialEq, Eq, Structural)]
pub enum Code {
    Okay,
    Unauthenticated,
    Internal,
}

/// The shape of a status as the specifications see it.
pub struct StatusView {
    pub code: Code,
    pub message: Seq<char>,
}

/// A terminal outcome: a code from the fixed enumeration plus a
/// human-readable message. Never retried.
#[derive(Clone, Debug)]
pub struct Status {
    pub code: Code,
    pub message: String,
}

impl View for Status {
    type V = StatusView;

    open spec fn view(&self) -> StatusView {
        StatusView { code: self.code, message: self.message@ }
    }
}

/// The digits of the wire-level numeric code for `c`.
pub open spec fn code_digits(c: Code) -> Seq<char> {
    match c {
        Code::Okay => "0"@,
        Code::Unauthenticated => "16"@,
        Code::Internal => "13"@,
    }
}

/// The terminal response synthesized from status `s`: an empty body, with the
/// numeric code and the message carried as metadata entries.
pub open spec fn http_view(s: StatusView) -> ResponseView {
    ResponseView {
        body: Seq::empty(),
        meta: seq![("grpc-status"@, code_digits(s.code)), ("grpc-message"@, s.message)],
    }
}

impl Status {
    /// A status with the given code and message.
    pub fn new(code: Code, message: String) -> (r: Status)
        ensures
            r@ == (StatusView { code, message: message@ }),
    {
        Status { code, message }
    }

    /// An `Unauthenticated` status with the given message.
    pub fn unauthenticated(message: &str) -> (r: Status)
        ensures
            r@ == (StatusView { code: Code::Unauthenticated, message: message@ }),
    {
        Status { code: Code::Unauthenticated, message: String::from_str(message) }
    }

    /// An `Internal` status with the given message.
    pub fn internal(message: &str) -> (r: Status)
        ensures
            r@ == (StatusView { code: Code::Internal, message: message@ }),
    {
        Status { code: Code::Internal, message: String::from_str(message) }
    }

    /// The digits of the wire-level numeric code, as `code_digits` gives them.
    pub fn code_text(&self) -> (r: String)
        ensures
            r@ == code_digits(self.code),
    {
        match self.code {
            Code::Okay => String::from_str("0"),
            Code::Unauthenticated => String::from_str("16"),
            Code::Internal => String::from_str("13"),
        }
    }

    /// Translates this status into the complete terminal response that stands
    /// for it on the wire, as `http_view` describes.
    pub fn to_http(&self) -> (r: Response)
        ensures
            r@ == http_view(self@),
    {
        let mut metadata = Metadata::new();
        metadata.append(String::from_str("grpc-status"), self.code_text());
        metadata.append(String::from_str("grpc-message"), self.message.clone());
        let r = Response { body: String::new(), metadata };
        proof {
            assert(r@.meta =~= http_view(self@).meta);
        }
        r
    }
}

/// The shape of a handler failure as the specifications see it.
pub struct ErrorView {
    pub message: Seq<char>,
}

/// A handler failure: the innermost handler's native error.
#[derive(Clone, Debug)]
pub struct Error {
    pub message: String,
}

impl View for Error {
    type V = ErrorView;

    open spec fn view(&self) -> ErrorView {
        ErrorView { message: self.message@ }
    }
}

impl Error {
    /// An error with the given message.
    pub fn new(message: &str) -> (r: Error)
        ensures
            r@ == (ErrorView { message: message@ }),
    {
        Error { message: String::from_str(message) }
    }
}

/// The view of a call outcome: the response's or the error's view, on the
/// side the outcome took.
pub open spec fn outcome_view(r: Result<Response, Error>) -> Result<ResponseView, ErrorView> {
    match r {
        Ok(resp) => Ok(resp@),
        Err(e) => Err(e@),
    }
}

} // verus!
