//! The closed union of scalar values that filters compare against, and its
//! mapping to the parameters bound into a prepared statement.

use vstd::prelude::*;
use vstd::string::StringExecFns;

verus! {

/// An opaque record identifier: either textual or numeric.
#[derive(Clone, Debug, PartialEq, Eq)]
pub enum GraphqlId {
    String(String),
    Int(usize),
}

/// A scalar value as it appears in filters and in materialised rows.
///
/// `Float` carries the IEEE-754 bit pattern of a single-precision number, so
/// that the value can be moved around and compared without any arithmetic.
#[derive(Clone, Debug, PartialEq, Eq)]
pub enum PrismaValue {
    String(String),
    Float(u32),
    Boolean(bool),
    DateTime(String),
    Enum(String),
    Json(String),
    Int(i32),
    Relation(usize),
    Null,
    Uuid(String),
    GraphqlId(GraphqlId),
}

/// A value bound as a parameter of a prepared statement.
///
/// `Real` carries the same single-precision bit pattern as
/// [`PrismaValue::Float`]; `Unsigned` carries identifiers, which are
/// machine-sized and need not fit a signed 64-bit integer.
#[derive(Clone, Debug, PartialEq, Eq)]
pub enum DatabaseValue {
    Null,
    Integer(i64),
    Unsigned(usize),
    Real(u32),
    Text(String),
    Boolean(bool),
}

impl GraphqlId {
    /// The parameter an identifier is bound as.
    pub open spec fn database_value(self) -> DatabaseValue {
        match self {
            GraphqlId::String(s) => DatabaseValue::Text(s),
            GraphqlId::Int(i) => DatabaseValue::Unsigned(i),
        }
    }

    /// Converts the identifier into its statement parameter.
    pub fn into_database_value(self) -> (value: DatabaseValue)
        ensures
            value == self.database_value(),
    {
        match self {
            GraphqlId::String(s) => DatabaseValue::Text(s),
            GraphqlId::Int(i) => DatabaseValue::Unsigned(i),
        }
    }
}

impl PrismaValue {
    /// Whether this is the `Null` variant. No other variant counts as null,
    /// whatever it holds.
    pub open spec fn is_null_value(self) -> bool {
        self is Null
    }

    /// Tests for the `Null` variant.
    pub fn is_null(&self) -> (null: bool)
        ensures
            null == self.is_null_value(),
    {
        match self {
            PrismaValue::Null => true,
            _ => false,
        }
    }

    /// The parameter a value is bound as. Every variant has one; identifiers
    /// go through [`GraphqlId::database_value`].
    pub open spec fn database_value(self) -> DatabaseValue {
        match self {
            PrismaValue::String(s) => DatabaseValue::Text(s),
            PrismaValue::Float(bits) => DatabaseValue::Real(bits),
            PrismaValue::Boolean(b) => DatabaseValue::Boolean(b),
            PrismaValue::DateTime(d) => DatabaseValue::Text(d),
            PrismaValue::Enum(e) => DatabaseValue::Text(e),
            PrismaValue::Json(j) => DatabaseValue::Text(j),
            PrismaValue::Int(i) => DatabaseValue::Integer(i as i64),
            PrismaValue::Relation(i) => DatabaseValue::Unsigned(i),
            PrismaValue::Null => DatabaseValue::Null,
            PrismaValue::Uuid(u) => DatabaseValue::Text(u),
            PrismaValue::GraphqlId(id) => id.database_value(),
        }
    }

    /// Converts the value into its statement parameter.
    pub fn into_database_value(self) -> (value: DatabaseValue)
        ensures
            value == self.database_value(),
    {
        match self {
            PrismaValue::String(s) => DatabaseValue::Text(s),
            PrismaValue::Float(bits) => DatabaseValue::Real(bits),
            PrismaValue::Boolean(b) => DatabaseValue::Boolean(b),
            PrismaValue::DateTime(d) => DatabaseValue::Text(d),
            PrismaValue::Enum(e) => DatabaseValue::Text(e),
            PrismaValue::Json(j) => DatabaseValue::Text(j),
            PrismaValue::Int(i) => DatabaseValue::Integer(i as i64),
            PrismaValue::Relation(i) => DatabaseValue::Unsigned(i),
            PrismaValue::Null => DatabaseValue::Null,
            PrismaValue::Uuid(u) => DatabaseValue::Text(u),
            PrismaValue::GraphqlId(id) => id.into_database_value(),
        }
    }
}

/// Whether two values are of the same variant, and as identifiers of the
/// same form.
pub open spec fn same_variant(a: PrismaValue, b: PrismaValue) -> bool {
    match (a, b) {
        (PrismaValue::String(_), PrismaValue::String(_)) => true,
        (PrismaValue::Float(_), PrismaValue::Float(_)) => true,
        (PrismaValue::Boolean(_), PrismaValue::Boolean(_)) => true,
        (PrismaValue::DateTime(_), PrismaValue::DateTime(_)) => true,
        (PrismaValue::Enum(_), PrismaValue::Enum(_)) => true,
        (PrismaValue::Json(_), PrismaValue::Json(_)) => true,
        (PrismaValue::Int(_), PrismaValue::Int(_)) => true,
        (PrismaValue::Relation(_), PrismaValue::Relation(_)) => true,
        (PrismaValue::Null, PrismaValue::Null) => true,
        (PrismaValue::Uuid(_), PrismaValue::Uuid(_)) => true,
        (PrismaValue::GraphqlId(x), PrismaValue::GraphqlId(y)) => (x is String) == (y is String),
        _ => false,
    }
}

/// The conversion to parameters loses nothing: two values of one variant
/// that are bound as the same parameter are the same value.
pub proof fn law_parameters_keep_values(a: PrismaValue, b: PrismaValue)
    requires
        same_variant(a, b),
        a.database_value() == b.database_value(),
    ensures
        a == b,
{
}

/// The character of a decimal digit.
pub open spec fn digit(d: int) -> char {
    if d == 0 {
        '0'
    } else if d == 1 {
        '1'
    } else if d == 2 {
        '2'
    } else if d == 3 {
        '3'
    } else if d == 4 {
        '4'
    } else if d == 5 {
        '5'
    } else if d == 6 {
        '6'
    } else if d == 7 {
        '7'
    } else if d == 8 {
        '8'
    } else {
        '9'
    }
}

/// The decimal digits of a natural number, without leading zeros.
pub open spec fn digits(n: nat) -> Seq<char>
    decreases n,
{
    if n < 10 {
        seq![digit(n as int)]
    } else {
        digits(n / 10).push(digit((n % 10) as int))
    }
}

/// An integer written out in decimal, with a minus sign where it is
/// negative.
pub open spec fn decimal(i: int) -> Seq<char> {
    if i < 0 {
        seq!['-'] + digits((-i) as nat)
    } else {
        digits(i as nat)
    }
}

/// The text of one decimal digit.
fn digit_text(d: u64) -> (text: &'static str)
    requires
        d < 10,
    ensures
        text@ == seq![digit(d as int)],
{
    proof {
        reveal_strlit("0");
        reveal_strlit("1");
        reveal_strlit("2");
        reveal_strlit("3");
        reveal_strlit("4");
        reveal_strlit("5");
        reveal_strlit("6");
        reveal_strlit("7");
        reveal_strlit("8");
        reveal_strlit("9");
    }
    let text = if d == 0 {
        "0"
    } else if d == 1 {
        "1"
    } else if d == 2 {
        "2"
    } else if d == 3 {
        "3"
    } else if d == 4 {
        "4"
    } else if d == 5 {
        "5"
    } else if d == 6 {
        "6"
    } else if d == 7 {
        "7"
    } else if d == 8 {
        "8"
    } else {
        "9"
    };
    assert(text@ =~= seq![digit(d as int)]);
    text
}

/// Writes a natural number out in decimal.
pub fn digits_text(n: u64) -> (text: String)
    ensures
        text@ == digits(n as nat),
{
    let mut rest: u64 = n;
    let mut low = String::new();
    assert(digits(n as nat) =~= digits(rest as nat) + low@);
    while rest >= 10
        invariant
            digits(n as nat) == digits(rest as nat) + low@,
        decreases rest,
    {
        let d: u64 = rest % 10;
        let ghost before = low@;
        low = String::from_str(digit_text(d)).concat(low.as_str());
        assert(digits(rest as nat) + before =~= digits((rest / 10) as nat) + low@);
        rest = rest / 10;
    }
    String::from_str(digit_text(rest)).concat(low.as_str())
}

/// Writes an integer out in decimal.
pub fn decimal_text(i: i64) -> (text: String)
    ensures
        text@ == decimal(i as int),
{
    if i < 0 {
        let magnitude: u64 = if i == i64::MIN {
            0x8000_0000_0000_0000
        } else {
            (-i) as u64
        };
        let written = digits_text(magnitude);
        let text = String::from_str("-").concat(written.as_str());
        proof {
            reveal_strlit("-");
            assert(text@ =~= seq!['-'] + digits((-i) as nat));
        }
        text
    } else {
        digits_text(i as u64)
    }
}

impl PrismaValue {
    /// The text that a pattern predicate matches a column against: text as
    /// it is, a boolean as `true` or `false`, an integer or numeric
    /// identifier in decimal, null as the empty text. A real has no text
    /// here.
    pub open spec fn pattern(self) -> Option<Seq<char>> {
        match self {
            PrismaValue::String(s) => Some(s@),
            PrismaValue::Float(_) => None,
            PrismaValue::Boolean(b) => Some(
                if b {
                    "true"@
                } else {
                    "false"@
                },
            ),
            PrismaValue::DateTime(s) => Some(s@),
            PrismaValue::Enum(s) => Some(s@),
            PrismaValue::Json(s) => Some(s@),
            PrismaValue::Int(i) => Some(decimal(i as int)),
            PrismaValue::Relation(i) => Some(digits(i as nat)),
            PrismaValue::Null => Some(Seq::<char>::empty()),
            PrismaValue::Uuid(s) => Some(s@),
            PrismaValue::GraphqlId(GraphqlId::String(s)) => Some(s@),
            PrismaValue::GraphqlId(GraphqlId::Int(i)) => Some(digits(i as nat)),
        }
    }

    /// Writes the value out as the text of a pattern, where it has one.
    pub fn pattern_text(&self) -> (text: Option<String>)
        ensures
            match text {
                Some(t) => self.pattern() == Some(t@),
                None => self.pattern() is None,
            },
    {
        match self {
            PrismaValue::String(s) => Some(s.clone()),
            PrismaValue::Float(_) => None,
            PrismaValue::Boolean(b) => if *b {
                Some(String::from_str("true"))
            } else {
                Some(String::from_str("false"))
            },
            PrismaValue::DateTime(s) => Some(s.clone()),
            PrismaValue::Enum(s) => Some(s.clone()),
            PrismaValue::Json(s) => Some(s.clone()),
            PrismaValue::Int(i) => Some(decimal_text(*i as i64)),
            PrismaValue::Relation(i) => Some(digits_text(*i as u64)),
            PrismaValue::Null => Some(String::new()),
            PrismaValue::Uuid(s) => Some(s.clone()),
            PrismaValue::GraphqlId(GraphqlId::String(s)) => Some(s.clone()),
            PrismaValue::GraphqlId(GraphqlId::Int(i)) => Some(digits_text(*i as u64)),
        }
    }
}

} // verus!
