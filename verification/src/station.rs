//! The stations of the line and the aliases a rider may type for them.
use crate::lexicon::{lexicon_rule, lookup, Lexicon};
use crate::token::agrees;
use vstd::prelude::*;
use vstd::string::*;

verus! {

#[derive(Clone, Copy, Debug, PartialEq, Eq, Structural)]
pub enum Station {
    LambertT1,
    LambertT2,
    NorthHanley,
    UMSLNorth,
    UMSLSouth,
    RockRoad,
    Wellston,
    DelmarLoop,
    Shrewsbury,
    Sunnen,
    MaplewoodManchester,
    Brentwood,
    RichmondHeights,
    Clayton,
    Forsyth,
    UCity,
    Skinker,
    ForestPark,
    CWE,
    Cortex,
    Grand,
    Union,
    CivicCenter,
    Stadium,
    EighthPine,
    ConventionCenter,
    LacledesLanding,
    EastRiverfront,
    FifthMissouri,
    EmersonPark,
    JJK,
    Washington,
    FairviewHeights,
    MemorialHospital,
    Swansea,
    Belleville,
    College,
    ShilohScott,
}

/// The aliases in the order in which they are tried. Where one alias
/// begins with another, the longer one stands first, so that each alias can
/// be reached and is consumed whole.
impl Lexicon for Station {
    open spec fn alias_count() -> usize {
        46
    }

    open spec fn alias(i: usize) -> (&'static str, Station) {
        match i {
            0 => ("lambert2", Station::LambertT2),
            1 => ("lambert", Station::LambertT1),
            2 => ("hanley", Station::NorthHanley),
            3 => ("umsl north", Station::UMSLNorth),
            4 => ("umsl south", Station::UMSLSouth),
            5 => ("umsl", Station::UMSLNorth),
            6 => ("rock road", Station::RockRoad),
            7 => ("wellston", Station::Wellston),
            8 => ("delmar", Station::DelmarLoop),
            9 => ("shrewsbury", Station::Shrewsbury),
            10 => ("sunnen", Station::Sunnen),
            11 => ("maplewood", Station::MaplewoodManchester),
            12 => ("brentwood", Station::Brentwood),
            13 => ("richmond", Station::RichmondHeights),
            14 => ("clayton", Station::Clayton),
            15 => ("forsyth", Station::Forsyth),
            16 => ("ucity", Station::UCity),
            17 => ("skinker", Station::Skinker),
            18 => ("forest park", Station::ForestPark),
            19 => ("cwe", Station::CWE),
            20 => ("central west end", Station::CWE),
            21 => ("cortex", Station::Cortex),
            22 => ("grand", Station::Grand),
            23 => ("union", Station::Union),
            24 => ("civic", Station::CivicCenter),
            25 => ("stadium", Station::Stadium),
            26 => ("8th pine", Station::EighthPine),
            27 => ("8th and pine", Station::EighthPine),
            28 => ("convention", Station::ConventionCenter),
            29 => ("lacledes landing", Station::LacledesLanding),
            30 => ("lacledes", Station::LacledesLanding),
            31 => ("riverfront", Station::EastRiverfront),
            32 => ("5th missouri", Station::FifthMissouri),
            33 => ("fifth missouri", Station::FifthMissouri),
            34 => ("emerson", Station::EmersonPark),
            35 => ("jjk", Station::JJK),
            36 => ("jackie joiner", Station::JJK),
            37 => ("washington", Station::Washington),
            38 => ("fvh", Station::FairviewHeights),
            39 => ("memorial hospital", Station::MemorialHospital),
            40 => ("memorial", Station::MemorialHospital),
            41 => ("swansea", Station::Swansea),
            42 => ("belleville", Station::Belleville),
            43 => ("college", Station::College),
            44 => ("shiloh scott", Station::ShilohScott),
            _ => ("shiloh", Station::ShilohScott),
        }
    }

    fn count() -> (n: usize) {
        46
    }

    fn entry(i: usize) -> (e: (&'static str, Station)) {
        match i {
            0 => ("lambert2", Station::LambertT2),
            1 => ("lambert", Station::LambertT1),
            2 => ("hanley", Station::NorthHanley),
            3 => ("umsl north", Station::UMSLNorth),
            4 => ("umsl south", Station::UMSLSouth),
            5 => ("umsl", Station::UMSLNorth),
            6 => ("rock road", Station::RockRoad),
            7 => ("wellston", Station::Wellston),
            8 => ("delmar", Station::DelmarLoop),
            9 => ("shrewsbury", Station::Shrewsbury),
            10 => ("sunnen", Station::Sunnen),
            11 => ("maplewood", Station::MaplewoodManchester),
            12 => ("brentwood", Station::Brentwood),
            13 => ("richmond", Station::RichmondHeights),
            14 => ("clayton", Station::Clayton),
            15 => ("forsyth", Station::Forsyth),
            16 => ("ucity", Station::UCity),
            17 => ("skinker", Station::Skinker),
            18 => ("forest park", Station::ForestPark),
            19 => ("cwe", Station::CWE),
            20 => ("central west end", Station::CWE),
            21 => ("cortex", Station::Cortex),
            22 => ("grand", Station::Grand),
            23 => ("union", Station::Union),
            24 => ("civic", Station::CivicCenter),
            25 => ("stadium", Station::Stadium),
            26 => ("8th pine", Station::EighthPine),
            27 => ("8th and pine", Station::EighthPine),
            28 => ("convention", Station::ConventionCenter),
            29 => ("lacledes landing", Station::LacledesLanding),
            30 => ("lacledes", Station::LacledesLanding),
            31 => ("riverfront", Station::EastRiverfront),
            32 => ("5th missouri", Station::FifthMissouri),
            33 => ("fifth missouri", Station::FifthMissouri),
            34 => ("emerson", Station::EmersonPark),
            35 => ("jjk", Station::JJK),
            36 => ("jackie joiner", Station::JJK),
            37 => ("washington", Station::Washington),
            38 => ("fvh", Station::FairviewHeights),
            39 => ("memorial hospital", Station::MemorialHospital),
            40 => ("memorial", Station::MemorialHospital),
            41 => ("swansea", Station::Swansea),
            42 => ("belleville", Station::Belleville),
            43 => ("college", Station::College),
            44 => ("shiloh scott", Station::ShilohScott),
            _ => ("shiloh", Station::ShilohScott),
        }
    }
}

impl Station {
    /// The name shown to a reader.
    pub open spec fn display_name(self) -> Seq<char> {
        match self {
            Station::LambertT1 => "Lambert Terminal 1"@,
            Station::LambertT2 => "Lambert Terminal 2"@,
            Station::NorthHanley => "North Hanley"@,
            Station::UMSLNorth => "UMSL North"@,
            Station::UMSLSouth => "UMSL South"@,
            Station::RockRoad => "Rock Road"@,
            Station::Wellston => "Wellston"@,
            Station::DelmarLoop => "Delmar Loop"@,
            Station::Shrewsbury => "Shrewsberry"@,
            Station::Sunnen => "Sunnen"@,
            Station::MaplewoodManchester => "Maplewood Manchester"@,
            Station::Brentwood => "Brentwood"@,
            Station::RichmondHeights => "Richmond Heights"@,
            Station::Clayton => "Clayton"@,
            Station::Forsyth => "Forsyth"@,
            Station::UCity => "University City"@,
            Station::Skinker => "Skinker"@,
            Station::ForestPark => "Forest Park"@,
            Station::CWE => "Central West End"@,
            Station::Cortex => "Cortex"@,
            Station::Grand => "Grand"@,
            Station::Union => "Union"@,
            Station::CivicCenter => "Civic Center"@,
            Station::Stadium => "Stadium"@,
            Station::EighthPine => "Eighth and Pine"@,
            Station::ConventionCenter => "Convention Center"@,
            Station::LacledesLanding => "Lacledes Landing"@,
            Station::EastRiverfront => "East Riverfront"@,
            Station::FifthMissouri => "Fifth and Missouri"@,
            Station::EmersonPark => "Emerson Park"@,
            Station::JJK => "JJK"@,
            Station::Washington => "Washington"@,
            Station::FairviewHeights => "Fairview Heights"@,
            Station::MemorialHospital => "Memorial Hospital"@,
            Station::Swansea => "Swansea"@,
            Station::Belleville => "Belleville"@,
            Station::College => "College"@,
            Station::ShilohScott => "Shiloh Scott"@,
        }
    }

    /// The name shown to a reader.
    pub fn to_string(&self) -> (r: String)
        ensures
            r@ == self.display_name(),
    {
        match self {
            Station::LambertT1 => "Lambert Terminal 1".to_owned(),
            Station::LambertT2 => "Lambert Terminal 2".to_owned(),
            Station::NorthHanley => "North Hanley".to_owned(),
            Station::UMSLNorth => "UMSL North".to_owned(),
            Station::UMSLSouth => "UMSL South".to_owned(),
            Station::RockRoad => "Rock Road".to_owned(),
            Station::Wellston => "Wellston".to_owned(),
            Station::DelmarLoop => "Delmar Loop".to_owned(),
            Station::Shrewsbury => "Shrewsberry".to_owned(),
            Station::Sunnen => "Sunnen".to_owned(),
            Station::MaplewoodManchester => "Maplewood Manchester".to_owned(),
            Station::Brentwood => "Brentwood".to_owned(),
            Station::RichmondHeights => "Richmond Heights".to_owned(),
            Station::Clayton => "Clayton".to_owned(),
            Station::Forsyth => "Forsyth".to_owned(),
            Station::UCity => "University City".to_owned(),
            Station::Skinker => "Skinker".to_owned(),
            Station::ForestPark => "Forest Park".to_owned(),
            Station::CWE => "Central West End".to_owned(),
            Station::Cortex => "Cortex".to_owned(),
            Station::Grand => "Grand".to_owned(),
            Station::Union => "Union".to_owned(),
            Station::CivicCenter => "Civic Center".to_owned(),
            Station::Stadium => "Stadium".to_owned(),
            Station::EighthPine => "Eighth and Pine".to_owned(),
            Station::ConventionCenter => "Convention Center".to_owned(),
            Station::LacledesLanding => "Lacledes Landing".to_owned(),
            Station::EastRiverfront => "East Riverfront".to_owned(),
            Station::FifthMissouri => "Fifth and Missouri".to_owned(),
            Station::EmersonPark => "Emerson Park".to_owned(),
            Station::JJK => "JJK".to_owned(),
            Station::Washington => "Washington".to_owned(),
            Station::FairviewHeights => "Fairview Heights".to_owned(),
            Station::MemorialHospital => "Memorial Hospital".to_owned(),
            Station::Swansea => "Swansea".to_owned(),
            Station::Belleville => "Belleville".to_owned(),
            Station::College => "College".to_owned(),
            Station::ShilohScott => "Shiloh Scott".to_owned(),
        }
    }
}

/// The station rule: the station of the first alias that stands at the head
/// of `s`, ASCII case ignored.
pub open spec fn station_rule(s: Seq<u8>) -> Option<(int, Station)> {
    lexicon_rule::<Station>(s)
}

/// Consumes a station alias from the head of `input`.
pub fn parse_station(input: &[u8]) -> (r: Option<(usize, Station)>)
    ensures
        agrees(r, station_rule(input@)),
        r matches Some((n, _)) ==> n <= input@.len(),
{
    lookup::<Station>(input)
}

} // verus!
