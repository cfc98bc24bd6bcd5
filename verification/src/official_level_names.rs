//! The ordered rosters of official level names for each game mode.

use vstd::prelude::*;

verus! {

/// The official Sprint levels, in presentation order.
pub closed spec fn sprint_level_names() -> Seq<Seq<char>> {
    seq![
        "Broken Symmetry"@,
        "Lost Society"@,
        "Negative Space"@,
        "Departure"@,
        "Ground Zero"@,
        "Amusement"@,
        "The Observer Effect"@,
        "Uncanny Valley"@,
        "Aftermath"@,
        "Friction"@,
        "The Thing About Machines"@,
        "Corruption"@,
        "Dissolution"@,
        "Falling Through"@,
        "Monolith"@,
        "Destination Unknown"@,
        "Rooftops"@,
        "The Manor"@,
        "Factory"@,
        "Stronghold"@,
        "Approach"@,
        "Chroma"@,
        "Cataclysm"@,
        "Diversion"@,
        "Euphoria"@,
        "Entanglement"@,
        "Automation"@,
        "Abyss"@,
        "Embers"@,
        "Isolation"@,
        "Repulsion"@,
        "Compression"@,
        "Research"@,
        "Contagion"@,
        "Overload"@,
        "Ascension"@,
        "Forgotten Utopia"@,
        "A Deeper Void"@,
        "Eye of the Storm"@,
        "The Sentinel Still Watches"@,
        "Pulse of a Violent Heart"@,
        "Shadow of the Beast"@,
        "It Was Supposed To Be Perfect"@,
        "Continuum"@,
        "Monument"@,
        "Brink"@,
        "Virtual Rift"@,
        "SR Motorplex"@,
        "Neo Seoul II"@,
        "Escape"@,
        "COAT Speedway"@,
        "Incline"@,
        "Tharsis Tholus"@,
        "Le Teleputo"@,
        "Neo Seoul"@,
        "Fulcrum"@,
        "Hard Light Transfer"@,
        "Observatory"@,
        "Digital"@,
        "Iris"@,
        "Precept"@,
        "Station"@,
        "Resonance"@,
        "Deterrence"@,
        "Terminus"@,
        "Projection"@,
        "Eclipse"@,
        "Vibe"@,
        "Luminescence"@,
        "Sector 0"@,
        "White Lightning Returns"@,
        "Micro"@,
        "Binary Construct"@,
        "Candles of Hekate"@,
        "Cosmic Glitch"@,
        "Epicentre"@,
        "Event Horizon"@,
        "Fallback Protocol"@,
        "Forsaken Shrine"@,
        "Impulse"@,
        "Industrial Fury"@,
        "Inferno"@,
        "Instability"@,
        "Knowledge"@,
        "Method"@,
        "Moonlight"@,
        "Outrun"@,
        "Paradise Lost"@,
        "Particular Journey"@,
        "Past"@,
        "Red"@,
        "Ruin"@,
        "Sea"@,
        "Shafty"@,
        "Static Fire Signal"@,
        "Sword"@,
        "The Night Before"@,
        "Vector Valley"@,
        "Volcanic Rush"@,
        "Whisper"@,
        "White"@,
        "Yellow"@,
    ]
}

/// The official Sprint levels as string slices, in presentation order.
pub(crate) fn sprint_names_vec() -> (names: Vec<&'static str>)
    ensures
        names@.len() == sprint_level_names().len(),
        forall|i: int| 0 <= i < names@.len() ==> names@[i]@ == sprint_level_names()[i],
{
    let names: Vec<&'static str> = vec![
        "Broken Symmetry",
        "Lost Society",
        "Negative Space",
        "Departure",
        "Ground Zero",
        "Amusement",
        "The Observer Effect",
        "Uncanny Valley",
        "Aftermath",
        "Friction",
        "The Thing About Machines",
        "Corruption",
        "Dissolution",
        "Falling Through",
        "Monolith",
        "Destination Unknown",
        "Rooftops",
        "The Manor",
        "Factory",
        "Stronghold",
        "Approach",
        "Chroma",
        "Cataclysm",
        "Diversion",
        "Euphoria",
        "Entanglement",
        "Automation",
        "Abyss",
        "Embers",
        "Isolation",
        "Repulsion",
        "Compression",
        "Research",
        "Contagion",
        "Overload",
        "Ascension",
        "Forgotten Utopia",
        "A Deeper Void",
        "Eye of the Storm",
        "The Sentinel Still Watches",
        "Pulse of a Violent Heart",
        "Shadow of the Beast",
        "It Was Supposed To Be Perfect",
        "Continuum",
        "Monument",
        "Brink",
        "Virtual Rift",
        "SR Motorplex",
        "Neo Seoul II",
        "Escape",
        "COAT Speedway",
        "Incline",
        "Tharsis Tholus",
        "Le Teleputo",
        "Neo Seoul",
        "Fulcrum",
        "Hard Light Transfer",
        "Observatory",
        "Digital",
        "Iris",
        "Precept",
        "Station",
        "Resonance",
        "Deterrence",
        "Terminus",
        "Projection",
        "Eclipse",
        "Vibe",
        "Luminescence",
        "Sector 0",
        "White Lightning Returns",
        "Micro",
        "Binary Construct",
        "Candles of Hekate",
        "Cosmic Glitch",
        "Epicentre",
        "Event Horizon",
        "Fallback Protocol",
        "Forsaken Shrine",
        "Impulse",
        "Industrial Fury",
        "Inferno",
        "Instability",
        "Knowledge",
        "Method",
        "Moonlight",
        "Outrun",
        "Paradise Lost",
        "Particular Journey",
        "Past",
        "Red",
        "Ruin",
        "Sea",
        "Shafty",
        "Static Fire Signal",
        "Sword",
        "The Night Before",
        "Vector Valley",
        "Volcanic Rush",
        "Whisper",
        "White",
        "Yellow",
    ];
    names
}

/// The official Stunt levels, in presentation order.
pub closed spec fn stunt_level_names() -> Seq<Seq<char>> {
    seq![
        "Neon Park"@,
        "Quantum Core"@,
        "Space Skate"@,
        "Stunt Playground"@,
        "Spooky Town"@,
        "Atrium"@,
        "Stuntware 2051"@,
        "Syncopation"@,
    ]
}

/// The official Stunt levels as string slices, in presentation order.
pub(crate) fn stunt_names_vec() -> (names: Vec<&'static str>)
    ensures
        names@.len() == stunt_level_names().len(),
        forall|i: int| 0 <= i < names@.len() ==> names@[i]@ == stunt_level_names()[i],
{
    let names: Vec<&'static str> = vec![
        "Neon Park",
        "Quantum Core",
        "Space Skate",
        "Stunt Playground",
        "Spooky Town",
        "Atrium",
        "Stuntware 2051",
        "Syncopation",
    ];
    names
}

/// The official Challenge levels, in presentation order.
pub closed spec fn challenge_level_names() -> Seq<Seq<char>> {
    seq![
        "Dodge"@,
        "Thunder Struck"@,
        "Grinder"@,
        "Descent"@,
        "Detached"@,
        "Red Heat"@,
        "Disassembly Line"@,
        "Elevation"@,
        "Obsidian"@,
        "Variant Blue"@,
        "Divide"@,
        "Electric"@,
        "44 Second Theory"@,
        "Hexahorrific"@,
        "Transfer"@,
    ]
}

/// The official Challenge levels as string slices, in presentation order.
pub(crate) fn challenge_names_vec() -> (names: Vec<&'static str>)
    ensures
        names@.len() == challenge_level_names().len(),
        forall|i: int| 0 <= i < names@.len() ==> names@[i]@ == challenge_level_names()[i],
{
    let names: Vec<&'static str> = vec![
        "Dodge",
        "Thunder Struck",
        "Grinder",
        "Descent",
        "Detached",
        "Red Heat",
        "Disassembly Line",
        "Elevation",
        "Obsidian",
        "Variant Blue",
        "Divide",
        "Electric",
        "44 Second Theory",
        "Hexahorrific",
        "Transfer",
    ];
    names
}

} // verus!
