//! The meter type in SolarEdge server monitoring API requests and responses.

use crate::textfmt::comma_join;
use vstd::prelude::*;
use vstd::string::StringExecFns;

verus! {

/// Meters supported by SolarEdge.
#[derive(Clone, Debug, PartialEq, Eq, Structural, Default)]
pub enum MeterType {
    /// Solar energy produced.
    #[default]
    Production,
    /// Total energy consumed (solar + grid)
    Consumption,
    /// Solar energy consumed.
    SelfConsumption,
    /// Solar energy exported to grid.
    FeedIn,
    /// Energy purchased from grid.
    Purchased,
}

impl MeterType {
    /// The exact external rendering of the meter type; part of the wire
    /// contract.
    pub open spec fn str_chars(self) -> Seq<char> {
        match self {
            MeterType::Production => "Production"@,
            MeterType::Consumption => "Consumption"@,
            MeterType::SelfConsumption => "SelfConsumption"@,
            MeterType::FeedIn => "FeedIn"@,
            MeterType::Purchased => "Purchased"@,
        }
    }

    /// Renders the meter type for a URL or a display.
    pub fn to_str(&self) -> (r: &'static str)
        ensures
            r@ == self.str_chars(),
    {
        match self {
            MeterType::Production => "Production",
            MeterType::Consumption => "Consumption",
            MeterType::SelfConsumption => "SelfConsumption",
            MeterType::FeedIn => "FeedIn",
            MeterType::Purchased => "Purchased",
        }
    }
}

/// The renderings of a sequence of meter types.
pub open spec fn meter_type_strs(m: Seq<MeterType>) -> Seq<Seq<char>> {
    m.map_values(|t: MeterType| t.str_chars())
}

/// The `meters=a,b,c&` query fragment for an optional list of meter types:
/// empty when the list is absent.
pub open spec fn meters_fragment(m: Option<Seq<MeterType>>) -> Seq<char> {
    match m {
        Some(v) => "meters="@ + comma_join(meter_type_strs(v)) + "&"@,
        None => Seq::<char>::empty(),
    }
}

/// Joins the renderings of the given meter types with commas.
fn meter_types_string(m: &Vec<MeterType>) -> (r: String)
    ensures
        r@ == comma_join(meter_type_strs(m@)),
{
    let mut s = String::new();
    let mut i: usize = 0;
    proof {
        assert(meter_type_strs(m@).take(0) =~= Seq::<Seq<char>>::empty());
    }
    while i < m.len()
        invariant
            i <= m.len(),
            s@ == comma_join(meter_type_strs(m@).take(i as int)),
        decreases m.len() - i,
    {
        if i > 0 {
            s.append(",");
            proof {
                reveal_strlit(",");
                assert(","@ =~= seq![',']);
            }
        }
        s.append(m[i].to_str());
        proof {
            crate::textfmt::lemma_comma_join_push(
                meter_type_strs(m@).take(i as int),
                meter_type_strs(m@)[i as int],
            );
            assert(meter_type_strs(m@).take(i as int).push(meter_type_strs(m@)[i as int])
                =~= meter_type_strs(m@).take(i + 1));
            assert(s@ =~= comma_join(meter_type_strs(m@).take(i + 1)));
        }
        i = i + 1;
    }
    proof {
        assert(meter_type_strs(m@).take(m.len() as int) =~= meter_type_strs(m@));
    }
    s
}

/// Renders the `meters=a,b,c&` fragment for an optional list of meter types.
pub fn render_meters_fragment(m: &Option<Vec<MeterType>>) -> (r: String)
    ensures
        r@ == meters_fragment(match m {
            Some(v) => Some(v@),
            None => None,
        }),
{
    match m {
        Some(v) => {
            let mut s = "meters=".to_owned();
            let joined = meter_types_string(v);
            s.append(joined.as_str());
            s.append("&");
            s
        },
        None => String::new(),
    }
}

} // verus!
