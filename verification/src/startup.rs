//! The startup settings of the viewer window: a fixed size, a fixed font,
//! and a title that carries a description of the machine's CPU data-cache
//! sizes, as reported at startup.

use crate::decimal::{dec_rep, format_usize};
use vstd::prelude::*;

verus! {

pub struct StartupSettings {
    pub physical_width: i32,
    pub physical_height: i32,
    pub title: String,
    pub default_font: String,
}

impl Default for StartupSettings {
    /// A 1000 x 670 window titled "Background task info", laid out in the
    /// one fixed font the viewer uses everywhere.
    fn default() -> (r: Self)
        ensures
            r.physical_width == 1000,
            r.physical_height == 670,
            r.title@ == "Background task info"@,
            r.default_font@ == "fixedsys.ttf"@,
    {
        StartupSettings {
            physical_width: 1000,
            physical_height: 670,
            title: String::from_str("Background task info"),
            default_font: String::from_str("fixedsys.ttf"),
        }
    }
}

/// The title suffix describing the three cache sizes, in bytes.
pub open spec fn cache_description(l1: nat, l2: nat, l3: nat) -> Seq<char> {
    "# L1: "@ + dec_rep(l1) + ", L2: "@ + dec_rep(l2) + ", L3: "@ + dec_rep(l3)
}

/// Renders the cache sizes as the title suffix `cache_description` gives.
pub fn describe_caches(l1: usize, l2: usize, l3: usize) -> (r: String)
    ensures
        r@ == cache_description(l1 as nat, l2 as nat, l3 as nat),
{
    let mut s = String::from_str("# L1: ");
    let d1 = format_usize(l1);
    s.append(d1.as_str());
    s.append(", L2: ");
    let d2 = format_usize(l2);
    s.append(d2.as_str());
    s.append(", L3: ");
    let d3 = format_usize(l3);
    s.append(d3.as_str());
    proof {
        assert(s@ =~= cache_description(l1 as nat, l2 as nat, l3 as nat));
    }
    s
}

/// Relies on cache_size::l1_cache_size: the total size in bytes of the L1
/// data cache, `None` where the machine does not report it. The result
/// depends on the machine, so nothing is promised of it.
#[verifier::external_body]
fn l1_cache_size() -> (r: Option<usize>) {
    cache_size::l1_cache_size()
}

/// Relies on cache_size::l2_cache_size: the total size in bytes of the L2
/// cache, `None` where the machine does not report it. The result depends
/// on the machine, so nothing is promised of it.
#[verifier::external_body]
fn l2_cache_size() -> (r: Option<usize>) {
    cache_size::l2_cache_size()
}

/// Relies on cache_size::l3_cache_size: the total size in bytes of the L3
/// cache, `None` where the machine does not report it. The result depends
/// on the machine, so nothing is promised of it.
#[verifier::external_body]
fn l3_cache_size() -> (r: Option<usize>) {
    cache_size::l3_cache_size()
}

/// The settings the window is created with: the defaults, with the cache
/// description (a size of 0 standing for one the machine did not report)
/// appended to the title. Whatever sizes the machine reports, the title is
/// the default title followed by their description.
pub fn startup_settings() -> (r: StartupSettings)
    ensures
        r.physical_width == 1000,
        r.physical_height == 670,
        r.default_font@ == "fixedsys.ttf"@,
        exists|l1: nat, l2: nat, l3: nat|
            r.title@ == "Background task info"@ + cache_description(l1, l2, l3),
{
    let mut settings = StartupSettings::default();
    let l1 = match l1_cache_size() {
        Some(n) => n,
        None => 0,
    };
    let l2 = match l2_cache_size() {
        Some(n) => n,
        None => 0,
    };
    let l3 = match l3_cache_size() {
        Some(n) => n,
        None => 0,
    };
    let description = describe_caches(l1, l2, l3);
    settings.title.append(description.as_str());
    proof {
        assert(settings.title@ == "Background task info"@ + cache_description(
            l1 as nat,
            l2 as nat,
            l3 as nat,
        ));
    }
    settings
}

} // verus!
