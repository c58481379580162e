use vstd::prelude::*;

verus! {

/// The light scenes by number.
pub open spec fn scenes() -> Map<u32, Seq<char>> {
    map![
        1u32 => "Ocean"@,
        2u32 => "Romance"@,
        3u32 => "Sunset"@,
        4u32 => "Party"@,
        5u32 => "Fireplace"@,
        6u32 => "Cozy"@,
        7u32 => "Forest"@,
        8u32 => "Pastel Colors"@,
        9u32 => "Wake up"@,
        10u32 => "Bedtime"@,
        11u32 => "Warm White"@,
        12u32 => "Daylight"@,
        13u32 => "Cool white"@,
        14u32 => "Night light"@,
        15u32 => "Focus"@,
        16u32 => "Relax"@,
        17u32 => "True colors"@,
        18u32 => "TV time"@,
        19u32 => "Plantgrowth"@,
        20u32 => "Spring"@,
        21u32 => "Summer"@,
        22u32 => "Fall"@,
        23u32 => "Deepdive"@,
        24u32 => "Jungle"@,
        25u32 => "Mojito"@,
        26u32 => "Club"@,
        27u32 => "Christmas"@,
        28u32 => "Halloween"@,
        29u32 => "Candlelight"@,
        30u32 => "Golden white"@,
        31u32 => "Pulse"@,
        32u32 => "Steampunk"@,
        1000u32 => "Rhythm"@,
    ]
}

/// The name of the light scene with number `id`, if there is one.
pub fn scene_name(id: u32) -> (r: Option<&'static str>)
    ensures
        r is Some <==> scenes().contains_key(id),
        r matches Some(s) ==> s@ == scenes()[id],
{
    match id {
        1 => Some("Ocean"),
        2 => Some("Romance"),
        3 => Some("Sunset"),
        4 => Some("Party"),
        5 => Some("Fireplace"),
        6 => Some("Cozy"),
        7 => Some("Forest"),
        8 => Some("Pastel Colors"),
        9 => Some("Wake up"),
        10 => Some("Bedtime"),
        11 => Some("Warm White"),
        12 => Some("Daylight"),
        13 => Some("Cool white"),
        14 => Some("Night light"),
        15 => Some("Focus"),
        16 => Some("Relax"),
        17 => Some("True colors"),
        18 => Some("TV time"),
        19 => Some("Plantgrowth"),
        20 => Some("Spring"),
        21 => Some("Summer"),
        22 => Some("Fall"),
        23 => Some("Deepdive"),
        24 => Some("Jungle"),
        25 => Some("Mojito"),
        26 => Some("Club"),
        27 => Some("Christmas"),
        28 => Some("Halloween"),
        29 => Some("Candlelight"),
        30 => Some("Golden white"),
        31 => Some("Pulse"),
        32 => Some("Steampunk"),
        1000 => Some("Rhythm"),
        _ => None,
    }
}

} // verus!
