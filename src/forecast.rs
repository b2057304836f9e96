//! The short-forecast categories and their text labels.
use vstd::prelude::*;
use crate::text::same_text;

verus! {

/// Sky conditions that the forecast service reports in a period's
/// `shortForecast` field.
#[derive(Debug, Clone, Copy, PartialEq, Eq, Structural)]
pub enum ShortForecast {
    Sunny,
    Clear,
    PartlyCloudy,
    MostlyCloudy,
    MostlySunny,
    PartlySunny,
}

/// Error for a forecast text that names none of the known categories.
#[derive(Debug, Clone, Copy, PartialEq, Eq, Structural)]
pub struct UnknownShortForecast;

/// The service's name for each category, without quotes.
pub open spec fn label(k: ShortForecast) -> Seq<char> {
    match k {
        ShortForecast::Sunny => seq!['S', 'u', 'n', 'n', 'y'],
        ShortForecast::Clear => seq!['C', 'l', 'e', 'a', 'r'],
        ShortForecast::PartlyCloudy => seq!['P', 'a', 'r', 't', 'l', 'y', ' ', 'C', 'l', 'o', 'u', 'd', 'y'],
        ShortForecast::MostlyCloudy => seq!['M', 'o', 's', 't', 'l', 'y', ' ', 'C', 'l', 'o', 'u', 'd', 'y'],
        ShortForecast::MostlySunny => seq!['M', 'o', 's', 't', 'l', 'y', ' ', 'S', 'u', 'n', 'n', 'y'],
        ShortForecast::PartlySunny => seq!['P', 'a', 'r', 't', 'l', 'y', ' ', 'S', 'u', 'n', 'n', 'y'],
    }
}

/// `s` between two double-quote characters, as a JSON string is written.
pub open spec fn quoted(s: Seq<char>) -> Seq<char> {
    seq!['"'] + s + seq!['"']
}

/// The quoted label, the form in which forecast text reaches the parser.
pub open spec fn quoted_label(k: ShortForecast) -> Seq<char> {
    quoted(label(k))
}

/// Distinct categories have distinct quoted labels.
pub proof fn lemma_quoted_label_injective(a: ShortForecast, b: ShortForecast)
    ensures
        quoted_label(a) == quoted_label(b) <==> a == b,
{
    if a != b {
        let (la, lb) = (quoted_label(a), quoted_label(b));
        assert(la[1] != lb[1] || la[8] != lb[8]);
    }
}

impl ShortForecast {
    /// The quoted label of this category.
    pub fn quoted_label_text(&self) -> (r: &'static str)
        ensures
            r@ == quoted_label(*self),
    {
        match self {
            ShortForecast::Sunny => {
                proof { reveal_strlit("\"Sunny\""); }
                "\"Sunny\""
            },
            ShortForecast::Clear => {
                proof { reveal_strlit("\"Clear\""); }
                "\"Clear\""
            },
            ShortForecast::PartlyCloudy => {
                proof { reveal_strlit("\"Partly Cloudy\""); }
                "\"Partly Cloudy\""
            },
            ShortForecast::MostlyCloudy => {
                proof { reveal_strlit("\"Mostly Cloudy\""); }
                "\"Mostly Cloudy\""
            },
            ShortForecast::MostlySunny => {
                proof { reveal_strlit("\"Mostly Sunny\""); }
                "\"Mostly Sunny\""
            },
            ShortForecast::PartlySunny => {
                proof { reveal_strlit("\"Partly Sunny\""); }
                "\"Partly Sunny\""
            },
        }
    }

    /// Reads a category from its quoted label, matched exactly: case and
    /// spaces count, and any other text is an error.
    pub fn from_str(text: &str) -> (r: Result<ShortForecast, UnknownShortForecast>)
        ensures
            forall|k: ShortForecast| #[trigger] quoted_label(k) == text@ <==> r == Ok::<ShortForecast, UnknownShortForecast>(k),
            r is Err <==> forall|k: ShortForecast| #[trigger] quoted_label(k) != text@,
    {
        let kinds = [
            ShortForecast::Sunny,
            ShortForecast::Clear,
            ShortForecast::PartlyCloudy,
            ShortForecast::MostlyCloudy,
            ShortForecast::PartlySunny,
            ShortForecast::MostlySunny,
        ];
        let mut i: usize = 0;
        while i < 6
            invariant
                i <= 6,
                kinds@ == seq![
                    ShortForecast::Sunny,
                    ShortForecast::Clear,
                    ShortForecast::PartlyCloudy,
                    ShortForecast::MostlyCloudy,
                    ShortForecast::PartlySunny,
                    ShortForecast::MostlySunny,
                ],
                forall|j: int| 0 <= j < i ==> quoted_label(#[trigger] kinds@[j]) != text@,
            decreases 6 - i,
        {
            let k = kinds[i];
            if same_text(text, k.quoted_label_text()) {
                proof {
                    assert forall|m: ShortForecast| #[trigger] quoted_label(m) == text@ <==> m == k by {
                        lemma_quoted_label_injective(m, k);
                    }
                }
                return Ok(k);
            }
            i = i + 1;
        }
        proof {
            assert forall|m: ShortForecast| #[trigger] quoted_label(m) != text@ by {
                let j: int = match m {
                    ShortForecast::Sunny => 0,
                    ShortForecast::Clear => 1,
                    ShortForecast::PartlyCloudy => 2,
                    ShortForecast::MostlyCloudy => 3,
                    ShortForecast::PartlySunny => 4,
                    ShortForecast::MostlySunny => 5,
                };
                assert(kinds@[j] == m);
            }
        }
        Err(UnknownShortForecast)
    }
}

} // verus!
