//! Query parameters: the optional fields of a request and their wire form.
//!
//! A parameter set is an ordered list of `(field, value)` pairs. It holds only
//! the fields that were set, in declaration order, and is written to the wire
//! as `name=value` pairs joined by `&`, each value in decimal.

use vstd::prelude::*;
use vstd::string::StringExecFns;

verus! {

/// The smallest page size that the API accepts.
pub const PER_PAGE_MIN: u8 = 1;

/// The largest page size that the API accepts.
pub const PER_PAGE_MAX: u8 = 100;

/// The optional query fields, in declaration order.
#[derive(Debug, Clone, Copy, PartialEq, Eq, Structural)]
pub enum Field {
    PerPage,
    Page,
}

impl Field {
    /// The position of the field in declaration order.
    pub open spec fn rank(self) -> nat {
        match self {
            Field::PerPage => 0,
            Field::Page => 1,
        }
    }

    /// The name of the field on the wire.
    pub open spec fn spec_name(self) -> Seq<char> {
        match self {
            Field::PerPage => "per_page"@,
            Field::Page => "page"@,
        }
    }

    /// The name of the field on the wire.
    pub fn name(&self) -> (r: &'static str)
        ensures
            r@ == self.spec_name(),
    {
        match self {
            Field::PerPage => "per_page",
            Field::Page => "page",
        }
    }
}

/// Why a set of parameters was refused.
#[derive(Debug, Clone, Copy, PartialEq, Eq, Structural)]
pub enum QueryError {
    /// The page size lies outside 1..=100.
    PerPageOutOfRange { given: u8 },
}

/// Whether a page size, where one was set, lies in 1..=100.
pub open spec fn valid_per_page(per_page: Option<u8>) -> bool {
    match per_page {
        Some(n) => PER_PAGE_MIN <= n <= PER_PAGE_MAX,
        None => true,
    }
}

/// One query parameter that is present in a request.
#[derive(Debug, Clone, Copy, PartialEq, Eq, Structural)]
pub struct Param {
    pub field: Field,
    pub value: u32,
}

/// The character of one decimal digit.
pub open spec fn digit_char(d: nat) -> char
    recommends
        d < 10,
{
    if d == 0 {
        '0'
    } else if d == 1 {
        '1'
    } else if d == 2 {
        '2'
    } else if d == 3 {
        '3'
    } else if d == 4 {
        '4'
    } else if d == 5 {
        '5'
    } else if d == 6 {
        '6'
    } else if d == 7 {
        '7'
    } else if d == 8 {
        '8'
    } else {
        '9'
    }
}

/// The decimal numeral of `n`: no sign, no leading zero, `"0"` for zero.
pub open spec fn decimal(n: nat) -> Seq<char>
    decreases n,
{
    if n < 10 {
        seq![digit_char(n)]
    } else {
        decimal(n / 10).push(digit_char(n % 10))
    }
}

/// The wire form of one parameter: its name, `=`, its value in decimal.
pub open spec fn pair_text(p: Param) -> Seq<char> {
    p.field.spec_name() + seq!['='] + decimal(p.value as nat)
}

/// The wire form of a list of parameters: the pairs in order, joined by `&`.
pub open spec fn query_text(params: Seq<Param>) -> Seq<char>
    decreases params.len(),
{
    if params.len() == 0 {
        Seq::empty()
    } else if params.len() == 1 {
        pair_text(params[0])
    } else {
        query_text(params.drop_last()) + seq!['&'] + pair_text(params.last())
    }
}

/// Whether the fields of `params` stand in strictly ascending declaration
/// order, so that none occurs twice.
pub open spec fn in_declared_order(params: Seq<Param>) -> bool {
    forall|i: int, j: int|
        0 <= i < j < params.len() ==> (#[trigger] params[i]).field.rank() < (
        #[trigger] params[j]).field.rank()
}

/// The text of one decimal digit.
fn digit_text(d: u32) -> (r: &'static str)
    requires
        d < 10,
    ensures
        r@ == seq![digit_char(d as nat)],
{
    proof {
        reveal_strlit("0");
        reveal_strlit("1");
        reveal_strlit("2");
        reveal_strlit("3");
        reveal_strlit("4");
        reveal_strlit("5");
        reveal_strlit("6");
        reveal_strlit("7");
        reveal_strlit("8");
        reveal_strlit("9");
    }
    let r = if d == 0 {
        "0"
    } else if d == 1 {
        "1"
    } else if d == 2 {
        "2"
    } else if d == 3 {
        "3"
    } else if d == 4 {
        "4"
    } else if d == 5 {
        "5"
    } else if d == 6 {
        "6"
    } else if d == 7 {
        "7"
    } else if d == 8 {
        "8"
    } else {
        "9"
    };
    assert(r@ =~= seq![digit_char(d as nat)]);
    r
}

/// Writes `n` in decimal.
pub fn decimal_text(n: u32) -> (r: String)
    ensures
        r@ == decimal(n as nat),
    decreases n,
{
    if n < 10 {
        String::from_str(digit_text(n))
    } else {
        let mut s = decimal_text(n / 10);
        s.append(digit_text(n % 10));
        assert(s@ =~= decimal(n as nat));
        s
    }
}

/// The parameters of one request: the fields that were set, in declaration
/// order.
#[derive(Debug, Clone, PartialEq, Eq)]
pub struct ParameterSet {
    params: Vec<Param>,
}

impl View for ParameterSet {
    type V = Seq<Param>;

    closed spec fn view(&self) -> Seq<Param> {
        self.params@
    }
}

impl ParameterSet {
    /// The invariant of a parameter set: declaration order, no field twice.
    pub open spec fn wf(&self) -> bool {
        in_declared_order(self@)
    }

    /// The set without parameters.
    pub fn empty() -> (r: ParameterSet)
        ensures
            r@ == Seq::<Param>::empty(),
            r.wf(),
    {
        ParameterSet { params: Vec::new() }
    }

    /// The set with the given optional fields: `per_page`, then `page`, each
    /// only where it is present.
    pub fn of(per_page: Option<u8>, page: Option<u32>) -> (r: ParameterSet)
        ensures
            r@ == selected(per_page, page),
            r.wf(),
    {
        let mut params: Vec<Param> = Vec::new();
        if let Some(n) = per_page {
            params.push(Param { field: Field::PerPage, value: n as u32 });
        }
        if let Some(n) = page {
            params.push(Param { field: Field::Page, value: n });
        }
        assert(params@ =~= selected(per_page, page));
        ParameterSet { params }
    }

    /// The set with the given optional fields, where the page size is one
    /// that the API accepts: in 1..=100, or not set.
    pub fn checked(per_page: Option<u8>, page: Option<u32>) -> (r: Result<ParameterSet, QueryError>)
        ensures
            match r {
                Ok(set) => valid_per_page(per_page) && set@ == selected(per_page, page) && set.wf(),
                Err(e) => !valid_per_page(per_page) && e == (QueryError::PerPageOutOfRange {
                    given: per_page->Some_0,
                }),
            },
    {
        match per_page {
            Some(n) => {
                if n < PER_PAGE_MIN || n > PER_PAGE_MAX {
                    return Err(QueryError::PerPageOutOfRange { given: n });
                }
            },
            None => {},
        }
        Ok(ParameterSet::of(per_page, page))
    }

    /// A copy of this set.
    pub fn duplicate(&self) -> (r: ParameterSet)
        ensures
            r@ == self@,
    {
        ParameterSet { params: self.params.clone() }
    }

    /// The number of parameters.
    pub fn len(&self) -> (r: usize)
        ensures
            r == self@.len(),
    {
        self.params.len()
    }

    /// Whether no parameter is present.
    pub fn is_empty(&self) -> (r: bool)
        ensures
            r == (self@.len() == 0),
    {
        self.params.len() == 0
    }

    /// The parameter at position `i`.
    pub fn get(&self, i: usize) -> (r: Option<Param>)
        ensures
            r == if i < self@.len() {
                Some(self@[i as int])
            } else {
                None
            },
    {
        if i < self.params.len() {
            Some(self.params[i])
        } else {
            None
        }
    }

    /// The value of `field`, where it is present.
    pub fn value_of(&self, field: Field) -> (r: Option<u32>)
        ensures
            r == lookup(self@, field),
    {
        let mut i: usize = 0;
        assert(self@.skip(0) =~= self@);
        while i < self.params.len()
            invariant
                i <= self.params@.len(),
                lookup(self@, field) == lookup(self@.skip(i as int), field),
            decreases self.params@.len() - i,
        {
            let p = self.params[i];
            assert(self@.skip(i as int)[0] == p);
            assert(self@.skip(i as int).skip(1) =~= self@.skip(i + 1));
            if p.field == field {
                return Some(p.value);
            }
            i += 1;
        }
        None
    }

    /// The query string of these parameters, without the leading `?`.
    pub fn to_query(&self) -> (r: String)
        ensures
            r@ == query_text(self@),
    {
        let mut out = String::new();
        let mut i: usize = 0;
        while i < self.params.len()
            invariant
                i <= self.params@.len(),
                out@ == query_text(self@.take(i as int)),
            decreases self.params@.len() - i,
        {
            let p = self.params[i];
            proof {
                let next = self@.take(i + 1);
                assert(next.drop_last() =~= self@.take(i as int));
                assert(next.last() == p);
            }
            if i > 0 {
                out.append("&");
            }
            out.append(p.field.name());
            out.append("=");
            let digits = decimal_text(p.value);
            out.append(digits.as_str());
            proof {
                reveal_strlit("&");
                reveal_strlit("=");
                assert("&"@ =~= seq!['&']);
                assert("="@ =~= seq!['=']);
                assert(out@ =~= query_text(self@.take(i + 1)));
            }
            i += 1;
        }
        assert(self@.take(i as int) =~= self@);
        out
    }
}

/// The parameters that stand for the given optional fields.
pub open spec fn selected(per_page: Option<u8>, page: Option<u32>) -> Seq<Param> {
    let first = match per_page {
        Some(n) => seq![Param { field: Field::PerPage, value: n as u32 }],
        None => Seq::<Param>::empty(),
    };
    let second = match page {
        Some(n) => seq![Param { field: Field::Page, value: n }],
        None => Seq::<Param>::empty(),
    };
    first + second
}

/// The value of the first parameter of `params` whose field is `field`.
pub open spec fn lookup(params: Seq<Param>, field: Field) -> Option<u32>
    decreases params.len(),
{
    if params.len() == 0 {
        None
    } else if params[0].field == field {
        Some(params[0].value)
    } else {
        lookup(params.skip(1), field)
    }
}

/// The parameters of a request are exactly the fields that were set: each
/// with the value it was set to, `per_page` before `page`, none twice, and
/// none at all where nothing was set.
pub proof fn parameters_are_the_fields_set(per_page: Option<u8>, page: Option<u32>)
    ensures
        lookup(selected(per_page, page), Field::PerPage) == match per_page {
            Some(n) => Some(n as u32),
            None => None,
        },
        lookup(selected(per_page, page), Field::Page) == page,
        selected(per_page, page).len() == (if per_page is Some {
            1nat
        } else {
            0nat
        }) + (if page is Some {
            1nat
        } else {
            0nat
        }),
        in_declared_order(selected(per_page, page)),
        selected(None, None) == Seq::<Param>::empty(),
        query_text(selected(per_page, page)) == match (per_page, page) {
            (None, None) => Seq::<char>::empty(),
            (Some(n), None) => pair_text(Param { field: Field::PerPage, value: n as u32 }),
            (None, Some(p)) => pair_text(Param { field: Field::Page, value: p }),
            (Some(n), Some(p)) => pair_text(Param { field: Field::PerPage, value: n as u32 })
                + seq!['&'] + pair_text(Param { field: Field::Page, value: p }),
        },
{
    reveal_with_fuel(query_text, 3);
    reveal_with_fuel(lookup, 3);
    let s = selected(per_page, page);
    assert(selected(None, None) =~= Seq::<Param>::empty());
    if s.len() == 2 {
        assert(s.drop_last().len() == 1);
        assert(s.drop_last()[0] == s[0]);
        assert(s.skip(1).len() == 1);
        assert(s.skip(1)[0] == s[1]);
        assert(s.skip(1).skip(1).len() == 0);
    } else if s.len() == 1 {
        assert(s.skip(1).len() == 0);
    }
}

} // verus!
