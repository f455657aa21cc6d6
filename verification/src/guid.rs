use vstd::prelude::*;

verus! {

/// A 128-bit interface identifier, laid out as the host's call interface
/// carries it: one 32-bit group, two 16-bit groups, and the trailing eight
/// bytes packed big-endian into `data4`.
#[derive(Clone, Copy, PartialEq, Eq, Structural, Debug)]
pub struct Guid {
    pub data1: u32,
    pub data2: u16,
    pub data3: u16,
    pub data4: u64,
}

impl Guid {
    /// The identifier whose packed big-endian 128-bit value is `v`.
    pub open spec fn from_value_spec(v: u128) -> Guid {
        Guid {
            data1: (v >> 96) as u32,
            data2: (v >> 80) as u16,
            data3: (v >> 64) as u16,
            data4: v as u64,
        }
    }

    /// Unpacks a 128-bit value into the four identifier groups.
    pub fn from_value(v: u128) -> (g: Guid)
        ensures
            g == Guid::from_value_spec(v),
    {
        Guid {
            data1: (v >> 96) as u32,
            data2: (v >> 80) as u16,
            data3: (v >> 64) as u16,
            data4: v as u64,
        }
    }
}

/// The 128-bit value of a textual identifier, when the text is well formed;
/// what `uuid` accepts and how it reads the groups is its own affair, but the
/// outcome depends on the text alone.
pub uninterp spec fn parsed_uuid(s: Seq<char>) -> Option<u128>;

/// Relies on uuid::Uuid::parse_str: the parse outcome, and on success the
/// 128-bit value of the identifier, are a function of the text alone.
#[verifier::external_body]
fn parse_uuid_value(s: &str) -> (r: Option<u128>)
    ensures
        r == parsed_uuid(s@),
{
    match uuid::Uuid::parse_str(s) {
        Ok(u) => Some(u.as_u128()),
        Err(_) => None,
    }
}

/// Parses a textual identifier into its four groups; `None` when the text is
/// not a well-formed identifier.
pub fn parse_guid(s: &str) -> (r: Option<Guid>)
    ensures
        r == (match parsed_uuid(s@) {
            Some(v) => Some(Guid::from_value_spec(v)),
            None => None::<Guid>,
        }),
{
    match parse_uuid_value(s) {
        Some(v) => Some(Guid::from_value(v)),
        None => None,
    }
}

} // verus!
