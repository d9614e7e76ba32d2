//! Command decisions: height queries and the toggle rule.
//!
//! A height query must reset the cache to the sentinel before the query
//! packet goes out, so that the value it returns was decoded from a
//! notification received after the query began. The toggle rule picks
//! sit or stand from which side of the physical midpoint the desk is
//! on.

use crate::force::HeightGoal;
use crate::height::{HeightCache, MID_PHYSICAL_HEIGHT, SENTINEL_HEIGHT};
use crate::packets::{query_packet, spec_packet, Command, QUERY_OPCODE};
use vstd::prelude::*;

verus! {

/// Begin a height query: the cache is reset to the sentinel first, and
/// the query packet to write is handed back only then. A later poll of
/// the cache can therefore observe nothing but a sample decoded after
/// this reset; the caller polls [`HeightCache::poll_sample`] until it
/// yields the fresh height.
pub fn begin_query(cache: &mut HeightCache) -> (packet: Vec<u8>)
    ensures
        final(cache).spec_height() == SENTINEL_HEIGHT,
        !final(cache).spec_has_sample(),
        final(cache).spec_raw() == old(cache).spec_raw(),
        final(cache).wf(),
        packet@ == spec_packet(QUERY_OPCODE),
{
    cache.reset();
    query_packet()
}

/// The toggle rule: above the physical midpoint the desk sits, at or
/// below it the desk stands.
pub fn toggle_command(height: isize) -> (c: Command)
    ensures
        c == (if height > MID_PHYSICAL_HEIGHT {
            Command::Sit
        } else {
            Command::Stand
        }),
{
    if height > MID_PHYSICAL_HEIGHT {
        Command::Sit
    } else {
        Command::Stand
    }
}

/// The goal a forced sit must reach: a stall below the midpoint.
pub fn sit_goal() -> (g: HeightGoal)
    ensures
        g == HeightGoal::Below(MID_PHYSICAL_HEIGHT),
{
    HeightGoal::Below(MID_PHYSICAL_HEIGHT)
}

/// The goal a forced stand must reach: a stall above the midpoint.
pub fn stand_goal() -> (g: HeightGoal)
    ensures
        g == HeightGoal::Above(MID_PHYSICAL_HEIGHT),
{
    HeightGoal::Above(MID_PHYSICAL_HEIGHT)
}

/// The goal of a forced toggle: the opposite side of the midpoint from
/// where the desk is now.
pub fn toggle_goal(height: isize) -> (g: HeightGoal)
    ensures
        g == (if height > MID_PHYSICAL_HEIGHT {
            HeightGoal::Below(MID_PHYSICAL_HEIGHT)
        } else {
            HeightGoal::Above(MID_PHYSICAL_HEIGHT)
        }),
{
    if height > MID_PHYSICAL_HEIGHT {
        sit_goal()
    } else {
        stand_goal()
    }
}

} // verus!
