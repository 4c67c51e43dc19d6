//! Problem documents: the structured payload returned when a computation
//! fails, with a title, an HTTP-style status and an optional detail string.
//! A problem is never cached; it is rendered as a JSON document under the
//! problem media type.

use vstd::prelude::*;
use vstd::utf8::encode_utf8;

use crate::response::{CachedResponse, HttpVersion, ResponseModel};
use crate::text::{
    append_decimal_u64, append_hex_upper8_prefixed, append_ascii_str, ascii_bytes, spec_decimal,
    spec_hex_upper8_prefixed,
};

verus! {

/// The mathematical model of a problem document.
pub ghost struct ProblemModel {
    pub status: u16,
    pub title: Seq<char>,
    pub detail: Option<Seq<char>>,
}

/// The canonical reason phrase for the status codes this service emits.
pub open spec fn spec_status_reason(status: u16) -> Seq<char> {
    if status == 400 {
        "Bad Request"@
    } else if status == 401 {
        "Unauthorized"@
    } else if status == 403 {
        "Forbidden"@
    } else if status == 404 {
        "Not Found"@
    } else if status == 500 {
        "Internal Server Error"@
    } else {
        "Unknown"@
    }
}

/// A structured error payload with a title, an HTTP-style status and an
/// optional detail string.
pub struct Problem {
    status: u16,
    title: String,
    detail: Option<String>,
}

impl View for Problem {
    type V = ProblemModel;

    closed spec fn view(&self) -> ProblemModel {
        ProblemModel {
            status: self.status,
            title: self.title@,
            detail: match self.detail {
                Some(d) => Some(d@),
                None => None,
            },
        }
    }
}

impl Problem {
    /// A problem carrying a status code and its canonical title, no detail.
    pub fn from_status(status: u16) -> (r: Self)
        ensures
            r@.status == status,
            r@.title == spec_status_reason(status),
            r@.detail == Option::<Seq<char>>::None,
    {
        let title = if status == 400 {
            "Bad Request"
        } else if status == 401 {
            "Unauthorized"
        } else if status == 403 {
            "Forbidden"
        } else if status == 404 {
            "Not Found"
        } else if status == 500 {
            "Internal Server Error"
        } else {
            "Unknown"
        };
        Problem { status, title: title.to_owned(), detail: None }
    }

    /// The same problem with its detail string set.
    pub fn set_detail(self, detail: &str) -> (r: Self)
        ensures
            r@.status == self@.status,
            r@.title == self@.title,
            r@.detail == Some(detail@),
    {
        Problem { detail: Some(detail.to_owned()), ..self }
    }

    /// The same problem with its title replaced.
    pub fn set_title(self, title: &str) -> (r: Self)
        ensures
            r@.status == self@.status,
            r@.title == title@,
            r@.detail == self@.detail,
    {
        Problem { title: title.to_owned(), ..self }
    }

    pub fn status(&self) -> (r: u16)
        ensures
            r == self@.status,
    {
        self.status
    }

    pub fn title(&self) -> (r: &String)
        ensures
            r@ == self@.title,
    {
        &self.title
    }

    pub fn detail(&self) -> (r: &Option<String>)
        ensures
            match r {
                Some(d) => self@.detail == Some(d@),
                None => self@.detail == Option::<Seq<char>>::None,
            },
    {
        &self.detail
    }

    /// An exact duplicate: the copy has the same model as the original.
    pub fn dup(&self) -> (r: Self)
        ensures
            r@ == self@,
    {
        Problem {
            status: self.status,
            title: self.title.clone(),
            detail: match &self.detail {
                Some(d) => Some(d.clone()),
                None => None,
            },
        }
    }
}

/// The write was made by an owner other than the resource's.
pub fn forbidden_permission() -> (r: Problem)
    ensures
        r@.status == 403,
        r@.title == spec_status_reason(403),
        r@.detail == Some("Api-Key does not have required permissions"@),
{
    Problem::from_status(403).set_detail("Api-Key does not have required permissions")
}

/// The presented key matches no owner.
pub fn unauthorized_no_owner() -> (r: Problem)
    ensures
        r@.status == 401,
        r@.title == spec_status_reason(401),
        r@.detail == Some("Api-Key not recognized"@),
{
    Problem::from_status(401).set_detail("Api-Key not recognized")
}

/// The request carried no key at all.
pub fn unauthorized_no_api_key() -> (r: Problem)
    ensures
        r@.status == 401,
        r@.title == spec_status_reason(401),
        r@.detail == Some("Api-Key header not present"@),
{
    Problem::from_status(401).set_detail("Api-Key header not present")
}

/// The database constraints whose violation this service reports with a
/// specific message.
#[derive(Clone, Copy, PartialEq, Eq, Structural, Debug)]
pub enum DbConstraint {
    ShopsOwnerIdFkey,
    InteriorRefListsOwnerIdFkey,
    MerchandiseListsOwnerIdFkey,
    TransactionsOwnerIdFkey,
    InteriorRefListsShopIdFkey,
    MerchandiseListsShopIdFkey,
    TransactionsShopIdFkey,
    OwnersApiKeyKey,
    OwnersUniqueNameAndApiKey,
    ShopsUniqueNameAndOwnerId,
    InteriorRefListsShopIdKey,
    MerchandiseListsShopIdKey,
    MerchandiseQuantityGtZero,
}

/// The detail string owed for a database error, by Postgres error code and
/// violated constraint; `None` where the error is not translated and falls
/// through to a plain internal server error.
pub open spec fn spec_db_error_detail(code: u32, constraint: Option<DbConstraint>) -> Option<
    Seq<char>,
> {
    match constraint {
        None => None,
        Some(c) => if code == 23503 && (c == DbConstraint::ShopsOwnerIdFkey
            || c == DbConstraint::InteriorRefListsOwnerIdFkey
            || c == DbConstraint::MerchandiseListsOwnerIdFkey
            || c == DbConstraint::TransactionsOwnerIdFkey) {
            Some("Owner does not exist"@)
        } else if code == 23503 && (c == DbConstraint::InteriorRefListsShopIdFkey
            || c == DbConstraint::MerchandiseListsShopIdFkey
            || c == DbConstraint::TransactionsShopIdFkey) {
            Some("Shop does not exist"@)
        } else if code == 23505 && c == DbConstraint::OwnersApiKeyKey {
            Some("Owner with Api-Key already exists"@)
        } else if code == 23505 && c == DbConstraint::OwnersUniqueNameAndApiKey {
            Some("Duplicate owner with same name and Api-Key exists"@)
        } else if code == 23505 && c == DbConstraint::ShopsUniqueNameAndOwnerId {
            Some("Owner already has a shop with that name"@)
        } else if code == 23505 && c == DbConstraint::InteriorRefListsShopIdKey {
            Some("Interior ref list already exists for that shop"@)
        } else if code == 23505 && c == DbConstraint::MerchandiseListsShopIdKey {
            Some("Merchandise list already exists for that shop"@)
        } else if code == 23514 && c == DbConstraint::MerchandiseQuantityGtZero {
            Some("Quantity of merchandise must be greater than zero"@)
        } else {
            None
        },
    }
}

/// Translate a database error into a problem: a recognized code/constraint
/// pair becomes a bad request with its message; anything else is not this
/// function's to report and yields `None`.
pub fn problem_for_db_error(code: u32, constraint: Option<DbConstraint>) -> (r: Option<Problem>)
    ensures
        match r {
            Some(p) => spec_db_error_detail(code, constraint) == Some(p@.detail.unwrap())
                && p@.detail is Some && p@.status == 400 && p@.title == spec_status_reason(400),
            None => spec_db_error_detail(code, constraint) == Option::<Seq<char>>::None,
        },
{
    let c = match constraint {
        Some(c) => c,
        None => {
            return None;
        },
    };
    let detail: &str = if code == 23503 && (c == DbConstraint::ShopsOwnerIdFkey
        || c == DbConstraint::InteriorRefListsOwnerIdFkey
        || c == DbConstraint::MerchandiseListsOwnerIdFkey
        || c == DbConstraint::TransactionsOwnerIdFkey) {
        "Owner does not exist"
    } else if code == 23503 && (c == DbConstraint::InteriorRefListsShopIdFkey
        || c == DbConstraint::MerchandiseListsShopIdFkey
        || c == DbConstraint::TransactionsShopIdFkey) {
        "Shop does not exist"
    } else if code == 23505 && c == DbConstraint::OwnersApiKeyKey {
        "Owner with Api-Key already exists"
    } else if code == 23505 && c == DbConstraint::OwnersUniqueNameAndApiKey {
        "Duplicate owner with same name and Api-Key exists"
    } else if code == 23505 && c == DbConstraint::ShopsUniqueNameAndOwnerId {
        "Owner already has a shop with that name"
    } else if code == 23505 && c == DbConstraint::InteriorRefListsShopIdKey {
        "Interior ref list already exists for that shop"
    } else if code == 23505 && c == DbConstraint::MerchandiseListsShopIdKey {
        "Merchandise list already exists for that shop"
    } else if code == 23514 && c == DbConstraint::MerchandiseQuantityGtZero {
        "Quantity of merchandise must be greater than zero"
    } else {
        return None;
    };
    Some(Problem::from_status(400).set_detail(detail))
}

/// The not-found problem for a purchase naming merchandise that the shop does
/// not carry, identified by mod name and form id.
pub fn merchandise_not_found(mod_name: &str, local_form_id: i32) -> (r: Problem)
    ensures
        r@.status == 404,
        r@.title == spec_status_reason(404),
        r@.detail == Some(
            "Cannot find merchandise to buy with mod_name: "@ + mod_name@
                + " and local_form_id: "@ + spec_hex_upper8_prefixed(local_form_id as u32 as nat),
        ),
{
    let mut detail = String::new();
    detail.append("Cannot find merchandise to buy with mod_name: ");
    detail.append(mod_name);
    detail.append(" and local_form_id: ");
    append_hex_upper8_prefixed(local_form_id as u32, &mut detail);
    let r = Problem::from_status(404).set_detail(detail.as_str());
    proof {
        assert(detail@ =~= "Cannot find merchandise to buy with mod_name: "@ + mod_name@
            + " and local_form_id: "@ + spec_hex_upper8_prefixed(local_form_id as u32 as nat));
    }
    r
}

/// The JSON escape of one byte of a string: quote and backslash are
/// backslash-escaped, control bytes become a four-digit escape, and every
/// other byte stands as itself.
pub open spec fn esc_byte(b: u8) -> Seq<u8> {
    if b == 34 {
        seq![92u8, 34u8]
    } else if b == 92 {
        seq![92u8, 92u8]
    } else if b < 32 {
        seq![
            92u8,
            117u8,
            48u8,
            48u8,
            if b / 16 < 10 {
                (48 + b / 16) as u8
            } else {
                (87 + b / 16) as u8
            },
            if b % 16 < 10 {
                (48 + b % 16) as u8
            } else {
                (87 + b % 16) as u8
            },
        ]
    } else {
        seq![b]
    }
}

/// The JSON escape of a string's bytes.
pub open spec fn spec_json_escape(s: Seq<u8>) -> Seq<u8>
    decreases s.len(),
{
    if s.len() == 0 {
        Seq::empty()
    } else {
        esc_byte(s[0]) + spec_json_escape(s.drop_first())
    }
}

proof fn lemma_json_escape_append(a: Seq<u8>, b: Seq<u8>)
    ensures
        spec_json_escape(a + b) == spec_json_escape(a) + spec_json_escape(b),
    decreases a.len(),
{
    if a.len() == 0 {
        assert(a + b =~= b);
        assert(spec_json_escape(a) + spec_json_escape(b) =~= spec_json_escape(b));
    } else {
        assert((a + b).drop_first() =~= a.drop_first() + b);
        lemma_json_escape_append(a.drop_first(), b);
        assert(spec_json_escape(a + b) =~= spec_json_escape(a) + spec_json_escape(b));
    }
}

fn append_json_escaped(out: &mut Vec<u8>, s: &str)
    ensures
        final(out)@ == old(out)@ + spec_json_escape(encode_utf8(s@)),
{
    let b = s.as_bytes();
    let n = b.len();
    let mut i: usize = 0;
    while i < n
        invariant
            n == b@.len(),
            0 <= i <= n,
            b@ == encode_utf8(s@),
            out@ == old(out)@ + spec_json_escape(b@.take(i as int)),
        decreases n - i,
    {
        let ghost prefix = b@.take(i as int);
        let c = b[i];
        if c == 34 {
            out.push(92);
            out.push(34);
        } else if c == 92 {
            out.push(92);
            out.push(92);
        } else if c < 32 {
            out.push(92);
            out.push(117);
            out.push(48);
            out.push(48);
            let hi = c / 16;
            let lo = c % 16;
            out.push(if hi < 10 { 48 + hi } else { 87 + hi });
            out.push(if lo < 10 { 48 + lo } else { 87 + lo });
        } else {
            out.push(c);
        }
        proof {
            assert(b@.take(i + 1) =~= prefix + seq![b@[i as int]]);
            lemma_json_escape_append(prefix, seq![b@[i as int]]);
            assert(seq![b@[i as int]].drop_first() =~= Seq::<u8>::empty());
            assert(spec_json_escape(seq![b@[i as int]]) =~= esc_byte(b@[i as int])
                + spec_json_escape(Seq::<u8>::empty()));
            assert(esc_byte(b@[i as int]) + Seq::<u8>::empty() =~= esc_byte(b@[i as int]));
            assert(out@ =~= old(out)@ + spec_json_escape(b@.take(i + 1)));
        }
        i = i + 1;
    }
    proof {
        assert(b@.take(n as int) =~= b@);
    }
}

/// The problem document's body: a JSON object with a type URL derived from
/// the status, the title, the status, and the detail when one is present.
pub open spec fn spec_problem_json(m: ProblemModel) -> Seq<u8> {
    ascii_bytes("{\"type\":\"https://httpstatuses.com/"@) + ascii_bytes(
        spec_decimal(m.status as nat),
    ) + ascii_bytes("\",\"title\":\""@) + spec_json_escape(encode_utf8(m.title)) + ascii_bytes(
        "\",\"status\":"@,
    ) + ascii_bytes(spec_decimal(m.status as nat)) + (match m.detail {
        Some(d) => ascii_bytes(",\"detail\":\""@) + spec_json_escape(encode_utf8(d)) + ascii_bytes(
            "\"}"@,
        ),
        None => ascii_bytes("}"@),
    })
}

fn append_decimal_bytes(out: &mut Vec<u8>, n: u64)
    ensures
        final(out)@ == old(out)@ + ascii_bytes(spec_decimal(n as nat)),
{
    let mut s = String::new();
    append_decimal_u64(n, &mut s);
    proof {
        lemma_decimal_is_ascii(n as nat);
    }
    append_ascii_str(out, s.as_str());
}

proof fn lemma_decimal_is_ascii(n: nat)
    ensures
        vstd::utf8::is_ascii_chars(spec_decimal(n)),
    decreases n,
{
    if n < 10 {
        assert('\0' <= spec_decimal(n)[0] <= '\u{7f}');
    } else {
        lemma_decimal_is_ascii(n / 10);
        let s = spec_decimal(n);
        assert(s == spec_decimal(n / 10).push(crate::text::dec_char((n % 10) as int)));
        assert forall|i: int| 0 <= i < s.len() implies '\0' <= #[trigger] s[i] <= '\u{7f}' by {
            if i < s.len() - 1 {
                assert(s[i] == spec_decimal(n / 10)[i]);
            } else {
                assert(s[i] == crate::text::dec_char((n % 10) as int));
            }
        }
    }
}

impl Problem {
    /// Render the problem as an uncacheable response: its status, the problem
    /// media type, and the JSON document as body.
    pub fn to_response(&self) -> (r: CachedResponse)
        ensures
            r@ == self.spec_response(),
    {
        let mut body: Vec<u8> = Vec::new();
        proof {
            reveal_strlit("{\"type\":\"https://httpstatuses.com/");
            reveal_strlit("\",\"title\":\"");
            reveal_strlit("\",\"status\":");
            reveal_strlit(",\"detail\":\"");
            reveal_strlit("\"}");
            reveal_strlit("}");
        }
        append_ascii_str(&mut body, "{\"type\":\"https://httpstatuses.com/");
        append_decimal_bytes(&mut body, self.status as u64);
        append_ascii_str(&mut body, "\",\"title\":\"");
        append_json_escaped(&mut body, self.title.as_str());
        append_ascii_str(&mut body, "\",\"status\":");
        append_decimal_bytes(&mut body, self.status as u64);
        match &self.detail {
            Some(d) => {
                append_ascii_str(&mut body, ",\"detail\":\"");
                append_json_escaped(&mut body, d.as_str());
                append_ascii_str(&mut body, "\"}");
            },
            None => {
                append_ascii_str(&mut body, "}");
            },
        }
        let mut headers: Vec<(String, String)> = Vec::new();
        headers.push(("content-type".to_owned(), "application/problem+json".to_owned()));
        let r = CachedResponse {
            status: self.status,
            version: HttpVersion::Http11,
            headers,
            body,
        };
        proof {
            assert(r@.headers =~= seq![("content-type"@, "application/problem+json"@)]);
            assert(r@.body =~= spec_problem_json(self@));
        }
        r
    }

    /// The response model that `to_response` yields.
    pub open spec fn spec_response(&self) -> ResponseModel {
        ResponseModel {
            status: self@.status,
            version: HttpVersion::Http11,
            headers: seq![("content-type"@, "application/problem+json"@)],
            body: spec_problem_json(self@),
        }
    }
}

} // verus!
