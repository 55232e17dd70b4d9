//! Validation and splitting of the "lat,lon" coordinate string.
//!
//! The geolocation service reports the coordinate as a single string.  It is
//! valid exactly when it holds one comma with non-empty text on both sides;
//! anything else is rejected before any weather call could be attempted.

use vstd::prelude::*;
use vstd::string::*;

verus! {

/// `i` is the position of the one comma of `s`, and both sides of it are
/// non-empty.
pub open spec fn comma_split_at(s: Seq<char>, i: int) -> bool {
    &&& 0 < i < s.len() - 1
    &&& s[i] == ','
    &&& forall|j: int| 0 <= j < s.len() && j != i ==> s[j] != ','
}

/// The string holds exactly one comma, with non-empty text on both sides.
pub open spec fn loc_valid(s: Seq<char>) -> bool {
    exists|i: int| comma_split_at(s, i)
}

/// The position of the one comma of a valid location string.
pub open spec fn comma_index(s: Seq<char>) -> int {
    choose|i: int| comma_split_at(s, i)
}

/// The latitude component of a valid location string.
pub open spec fn lat_of(s: Seq<char>) -> Seq<char> {
    s.take(comma_index(s))
}

/// The longitude component of a valid location string.
pub open spec fn lon_of(s: Seq<char>) -> Seq<char> {
    s.skip(comma_index(s) + 1)
}

/// A valid location string splits into exactly two components: both are
/// non-empty, neither holds a comma, and rejoining them with a comma gives
/// back the original string.
pub proof fn lemma_location_split(s: Seq<char>)
    requires
        loc_valid(s),
    ensures
        lat_of(s).len() > 0,
        lon_of(s).len() > 0,
        s =~= lat_of(s) + seq![','] + lon_of(s),
        forall|j: int| 0 <= j < lat_of(s).len() ==> lat_of(s)[j] != ',',
        forall|j: int| 0 <= j < lon_of(s).len() ==> lon_of(s)[j] != ',',
{
    let i = comma_index(s);
    assert(comma_split_at(s, i));
    assert forall|j: int| 0 <= j < lon_of(s).len() implies lon_of(s)[j] != ',' by {
        assert(lon_of(s)[j] == s[i + 1 + j]);
    }
}

/// Splits a location string on its comma into latitude and longitude, or
/// reports that the string is malformed.
pub fn split_location(loc: &str) -> (r: Option<(String, String)>)
    ensures
        match r {
            Some(parts) => {
                &&& loc_valid(loc@)
                &&& parts.0@ == lat_of(loc@)
                &&& parts.1@ == lon_of(loc@)
            },
            None => !loc_valid(loc@),
        },
{
    let n = loc.unicode_len();
    // Find the first comma.
    let mut i: usize = 0;
    while i < n && loc.get_char(i) != ','
        invariant
            n == loc@.len(),
            0 <= i <= n,
            forall|j: int| 0 <= j < i ==> loc@[j] != ',',
        decreases n - i,
    {
        i = i + 1;
    }
    if i >= n {
        // No comma at all: no split position can exist.
        proof {
            assert forall|w: int| !comma_split_at(loc@, w) by {
                if 0 < w < loc@.len() - 1 {
                    assert(loc@[w] != ',');
                }
            }
        }
        return None;
    }
    // Check that no second comma follows.
    let mut k: usize = i + 1;
    while k < n && loc.get_char(k) != ','
        invariant
            n == loc@.len(),
            i < k <= n,
            forall|j: int| i < j < k ==> loc@[j] != ',',
        decreases n - k,
    {
        k = k + 1;
    }
    if k < n {
        // A second comma: uniqueness fails for every candidate position.
        proof {
            assert(loc@[i as int] == ',');
            assert(loc@[k as int] == ',');
            assert forall|w: int| !comma_split_at(loc@, w) by {
                if comma_split_at(loc@, w) {
                    if w != i {
                        assert(loc@[i as int] != ',');
                    } else {
                        assert(loc@[k as int] != ',');
                    }
                }
            }
        }
        return None;
    }
    if i == 0 || i + 1 >= n {
        // An empty component on one side of the comma.
        proof {
            assert forall|w: int| !comma_split_at(loc@, w) by {
                if comma_split_at(loc@, w) {
                    if w != i {
                        assert(loc@[w] != ',');
                    }
                }
            }
        }
        return None;
    }
    proof {
        assert(comma_split_at(loc@, i as int));
        let w = comma_index(loc@);
        assert(comma_split_at(loc@, w));
        if w != i {
            assert(loc@[w] != ',');
        }
        assert(w == i as int);
    }
    let lat = loc.substring_char(0, i).to_owned();
    let lon = loc.substring_char(i + 1, n).to_owned();
    Some((lat, lon))
}

} // verus!
