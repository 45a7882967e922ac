//! The catalog's data: what the storefront says of a product, and what the engine keeps of it.

use crate::text::str_eq;
use vstd::prelude::*;

verus! {

/// The storefront's classification of a product.
#[derive(Debug, Clone, PartialEq, Eq, Hash)]
pub enum DLsiteProductType {
    Adult,
    Doujinsji,
    Software,
    Game,
    Action,
    Adventure,
    AudioMaterial,
    Comic,
    DigitalNovel,
    Other,
    OtherGame,
    Illust,
    ImageMaterial,
    Manga,
    Anime,
    Music,
    Novel,
    Puzzle,
    Quiz,
    RolePlaying,
    Gekiga,
    Simulation,
    Voice,
    Shooter,
    Tabletop,
    Utility,
    Typing,
    SexualNovel,
    VoiceComic,
    /// A classification code that this library does not know, kept as received.
    Unknown(String),
}

impl DLsiteProductType {
    /// The classification that a three-letter storefront code stands for, if it is a known one.
    pub open spec fn known_of_code(code: Seq<char>) -> Option<DLsiteProductType> {
        if code == "ADL"@ {
            Some(DLsiteProductType::Adult)
        } else         if code == "DOH"@ {
            Some(DLsiteProductType::Doujinsji)
        } else         if code == "SOF"@ {
            Some(DLsiteProductType::Software)
        } else         if code == "GAM"@ {
            Some(DLsiteProductType::Game)
        } else         if code == "ACN"@ {
            Some(DLsiteProductType::Action)
        } else         if code == "ADV"@ {
            Some(DLsiteProductType::Adventure)
        } else         if code == "AMT"@ {
            Some(DLsiteProductType::AudioMaterial)
        } else         if code == "COM"@ {
            Some(DLsiteProductType::Comic)
        } else         if code == "DNV"@ {
            Some(DLsiteProductType::DigitalNovel)
        } else         if code == "ET3"@ {
            Some(DLsiteProductType::Other)
        } else         if code == "ETC"@ {
            Some(DLsiteProductType::OtherGame)
        } else         if code == "ICG"@ {
            Some(DLsiteProductType::Illust)
        } else         if code == "IMT"@ {
            Some(DLsiteProductType::ImageMaterial)
        } else         if code == "MNG"@ {
            Some(DLsiteProductType::Manga)
        } else         if code == "MOV"@ {
            Some(DLsiteProductType::Anime)
        } else         if code == "MUS"@ {
            Some(DLsiteProductType::Music)
        } else         if code == "NRE"@ {
            Some(DLsiteProductType::Novel)
        } else         if code == "PZL"@ {
            Some(DLsiteProductType::Puzzle)
        } else         if code == "QIZ"@ {
            Some(DLsiteProductType::Quiz)
        } else         if code == "RPG"@ {
            Some(DLsiteProductType::RolePlaying)
        } else         if code == "SCM"@ {
            Some(DLsiteProductType::Gekiga)
        } else         if code == "SLN"@ {
            Some(DLsiteProductType::Simulation)
        } else         if code == "SOU"@ {
            Some(DLsiteProductType::Voice)
        } else         if code == "STG"@ {
            Some(DLsiteProductType::Shooter)
        } else         if code == "TBL"@ {
            Some(DLsiteProductType::Tabletop)
        } else         if code == "TOL"@ {
            Some(DLsiteProductType::Utility)
        } else         if code == "TYP"@ {
            Some(DLsiteProductType::Typing)
        } else         if code == "KSV"@ {
            Some(DLsiteProductType::SexualNovel)
        } else         if code == "VCM"@ {
            Some(DLsiteProductType::VoiceComic)
        } else {
            None
        }
    }

    /// The name under which the classification is shown and stored.
    pub open spec fn name_spec(self) -> Seq<char> {
        match self {
            DLsiteProductType::Adult => "Adult"@,
            DLsiteProductType::Doujinsji => "Doujinsji"@,
            DLsiteProductType::Software => "Software"@,
            DLsiteProductType::Game => "Game"@,
            DLsiteProductType::Action => "Action"@,
            DLsiteProductType::Adventure => "Adventure"@,
            DLsiteProductType::AudioMaterial => "AudioMaterial"@,
            DLsiteProductType::Comic => "Comic"@,
            DLsiteProductType::DigitalNovel => "DigitalNovel"@,
            DLsiteProductType::Other => "Other"@,
            DLsiteProductType::OtherGame => "OtherGame"@,
            DLsiteProductType::Illust => "Illust"@,
            DLsiteProductType::ImageMaterial => "ImageMaterial"@,
            DLsiteProductType::Manga => "Manga"@,
            DLsiteProductType::Anime => "Anime"@,
            DLsiteProductType::Music => "Music"@,
            DLsiteProductType::Novel => "Novel"@,
            DLsiteProductType::Puzzle => "Puzzle"@,
            DLsiteProductType::Quiz => "Quiz"@,
            DLsiteProductType::RolePlaying => "RolePlaying"@,
            DLsiteProductType::Gekiga => "Gekiga"@,
            DLsiteProductType::Simulation => "Simulation"@,
            DLsiteProductType::Voice => "Voice"@,
            DLsiteProductType::Shooter => "Shooter"@,
            DLsiteProductType::Tabletop => "Tabletop"@,
            DLsiteProductType::Utility => "Utility"@,
            DLsiteProductType::Typing => "Typing"@,
            DLsiteProductType::SexualNovel => "SexualNovel"@,
            DLsiteProductType::VoiceComic => "VoiceComic"@,
            DLsiteProductType::Unknown(s) => s@,
        }
    }

    /// The classification that is stored under `name`, if `name` is the name of a known
    /// one, letter for letter.
    pub open spec fn of_name(name: Seq<char>) -> Option<DLsiteProductType> {
        if name == "Adult"@ {
            Some(DLsiteProductType::Adult)
        } else         if name == "Doujinsji"@ {
            Some(DLsiteProductType::Doujinsji)
        } else         if name == "Software"@ {
            Some(DLsiteProductType::Software)
        } else         if name == "Game"@ {
            Some(DLsiteProductType::Game)
        } else         if name == "Action"@ {
            Some(DLsiteProductType::Action)
        } else         if name == "Adventure"@ {
            Some(DLsiteProductType::Adventure)
        } else         if name == "AudioMaterial"@ {
            Some(DLsiteProductType::AudioMaterial)
        } else         if name == "Comic"@ {
            Some(DLsiteProductType::Comic)
        } else         if name == "DigitalNovel"@ {
            Some(DLsiteProductType::DigitalNovel)
        } else         if name == "Other"@ {
            Some(DLsiteProductType::Other)
        } else         if name == "OtherGame"@ {
            Some(DLsiteProductType::OtherGame)
        } else         if name == "Illust"@ {
            Some(DLsiteProductType::Illust)
        } else         if name == "ImageMaterial"@ {
            Some(DLsiteProductType::ImageMaterial)
        } else         if name == "Manga"@ {
            Some(DLsiteProductType::Manga)
        } else         if name == "Anime"@ {
            Some(DLsiteProductType::Anime)
        } else         if name == "Music"@ {
            Some(DLsiteProductType::Music)
        } else         if name == "Novel"@ {
            Some(DLsiteProductType::Novel)
        } else         if name == "Puzzle"@ {
            Some(DLsiteProductType::Puzzle)
        } else         if name == "Quiz"@ {
            Some(DLsiteProductType::Quiz)
        } else         if name == "RolePlaying"@ {
            Some(DLsiteProductType::RolePlaying)
        } else         if name == "Gekiga"@ {
            Some(DLsiteProductType::Gekiga)
        } else         if name == "Simulation"@ {
            Some(DLsiteProductType::Simulation)
        } else         if name == "Voice"@ {
            Some(DLsiteProductType::Voice)
        } else         if name == "Shooter"@ {
            Some(DLsiteProductType::Shooter)
        } else         if name == "Tabletop"@ {
            Some(DLsiteProductType::Tabletop)
        } else         if name == "Utility"@ {
            Some(DLsiteProductType::Utility)
        } else         if name == "Typing"@ {
            Some(DLsiteProductType::Typing)
        } else         if name == "SexualNovel"@ {
            Some(DLsiteProductType::SexualNovel)
        } else         if name == "VoiceComic"@ {
            Some(DLsiteProductType::VoiceComic)
        } else {
            None
        }
    }

    /// Reads a stored name. `None` for a text that names no known classification.
    pub fn from_name(name: &str) -> (value: Option<Self>)
        ensures
            value == Self::of_name(name@),
    {
        if str_eq(name, "Adult") {
            Some(DLsiteProductType::Adult)
        } else         if str_eq(name, "Doujinsji") {
            Some(DLsiteProductType::Doujinsji)
        } else         if str_eq(name, "Software") {
            Some(DLsiteProductType::Software)
        } else         if str_eq(name, "Game") {
            Some(DLsiteProductType::Game)
        } else         if str_eq(name, "Action") {
            Some(DLsiteProductType::Action)
        } else         if str_eq(name, "Adventure") {
            Some(DLsiteProductType::Adventure)
        } else         if str_eq(name, "AudioMaterial") {
            Some(DLsiteProductType::AudioMaterial)
        } else         if str_eq(name, "Comic") {
            Some(DLsiteProductType::Comic)
        } else         if str_eq(name, "DigitalNovel") {
            Some(DLsiteProductType::DigitalNovel)
        } else         if str_eq(name, "Other") {
            Some(DLsiteProductType::Other)
        } else         if str_eq(name, "OtherGame") {
            Some(DLsiteProductType::OtherGame)
        } else         if str_eq(name, "Illust") {
            Some(DLsiteProductType::Illust)
        } else         if str_eq(name, "ImageMaterial") {
            Some(DLsiteProductType::ImageMaterial)
        } else         if str_eq(name, "Manga") {
            Some(DLsiteProductType::Manga)
        } else         if str_eq(name, "Anime") {
            Some(DLsiteProductType::Anime)
        } else         if str_eq(name, "Music") {
            Some(DLsiteProductType::Music)
        } else         if str_eq(name, "Novel") {
            Some(DLsiteProductType::Novel)
        } else         if str_eq(name, "Puzzle") {
            Some(DLsiteProductType::Puzzle)
        } else         if str_eq(name, "Quiz") {
            Some(DLsiteProductType::Quiz)
        } else         if str_eq(name, "RolePlaying") {
            Some(DLsiteProductType::RolePlaying)
        } else         if str_eq(name, "Gekiga") {
            Some(DLsiteProductType::Gekiga)
        } else         if str_eq(name, "Simulation") {
            Some(DLsiteProductType::Simulation)
        } else         if str_eq(name, "Voice") {
            Some(DLsiteProductType::Voice)
        } else         if str_eq(name, "Shooter") {
            Some(DLsiteProductType::Shooter)
        } else         if str_eq(name, "Tabletop") {
            Some(DLsiteProductType::Tabletop)
        } else         if str_eq(name, "Utility") {
            Some(DLsiteProductType::Utility)
        } else         if str_eq(name, "Typing") {
            Some(DLsiteProductType::Typing)
        } else         if str_eq(name, "SexualNovel") {
            Some(DLsiteProductType::SexualNovel)
        } else         if str_eq(name, "VoiceComic") {
            Some(DLsiteProductType::VoiceComic)
        } else {
            None
        }
    }

    /// Reads a storefront classification code. An unknown code is kept in `Unknown`.
    pub fn from_code(code: &str) -> (r: Self)
        ensures
            match Self::known_of_code(code@) {
                Some(t) => r == t,
                None => r matches DLsiteProductType::Unknown(s) && s@ == code@,
            },
    {
        if str_eq(code, "ADL") {
            DLsiteProductType::Adult
        } else         if str_eq(code, "DOH") {
            DLsiteProductType::Doujinsji
        } else         if str_eq(code, "SOF") {
            DLsiteProductType::Software
        } else         if str_eq(code, "GAM") {
            DLsiteProductType::Game
        } else         if str_eq(code, "ACN") {
            DLsiteProductType::Action
        } else         if str_eq(code, "ADV") {
            DLsiteProductType::Adventure
        } else         if str_eq(code, "AMT") {
            DLsiteProductType::AudioMaterial
        } else         if str_eq(code, "COM") {
            DLsiteProductType::Comic
        } else         if str_eq(code, "DNV") {
            DLsiteProductType::DigitalNovel
        } else         if str_eq(code, "ET3") {
            DLsiteProductType::Other
        } else         if str_eq(code, "ETC") {
            DLsiteProductType::OtherGame
        } else         if str_eq(code, "ICG") {
            DLsiteProductType::Illust
        } else         if str_eq(code, "IMT") {
            DLsiteProductType::ImageMaterial
        } else         if str_eq(code, "MNG") {
            DLsiteProductType::Manga
        } else         if str_eq(code, "MOV") {
            DLsiteProductType::Anime
        } else         if str_eq(code, "MUS") {
            DLsiteProductType::Music
        } else         if str_eq(code, "NRE") {
            DLsiteProductType::Novel
        } else         if str_eq(code, "PZL") {
            DLsiteProductType::Puzzle
        } else         if str_eq(code, "QIZ") {
            DLsiteProductType::Quiz
        } else         if str_eq(code, "RPG") {
            DLsiteProductType::RolePlaying
        } else         if str_eq(code, "SCM") {
            DLsiteProductType::Gekiga
        } else         if str_eq(code, "SLN") {
            DLsiteProductType::Simulation
        } else         if str_eq(code, "SOU") {
            DLsiteProductType::Voice
        } else         if str_eq(code, "STG") {
            DLsiteProductType::Shooter
        } else         if str_eq(code, "TBL") {
            DLsiteProductType::Tabletop
        } else         if str_eq(code, "TOL") {
            DLsiteProductType::Utility
        } else         if str_eq(code, "TYP") {
            DLsiteProductType::Typing
        } else         if str_eq(code, "KSV") {
            DLsiteProductType::SexualNovel
        } else         if str_eq(code, "VCM") {
            DLsiteProductType::VoiceComic
        } else {
            DLsiteProductType::Unknown(code.to_owned())
        }
    }

    /// A copy of the classification.
    pub fn duplicate(&self) -> (copy: Self)
        ensures
            copy == *self,
    {
        match self {
            DLsiteProductType::Adult => DLsiteProductType::Adult,
            DLsiteProductType::Doujinsji => DLsiteProductType::Doujinsji,
            DLsiteProductType::Software => DLsiteProductType::Software,
            DLsiteProductType::Game => DLsiteProductType::Game,
            DLsiteProductType::Action => DLsiteProductType::Action,
            DLsiteProductType::Adventure => DLsiteProductType::Adventure,
            DLsiteProductType::AudioMaterial => DLsiteProductType::AudioMaterial,
            DLsiteProductType::Comic => DLsiteProductType::Comic,
            DLsiteProductType::DigitalNovel => DLsiteProductType::DigitalNovel,
            DLsiteProductType::Other => DLsiteProductType::Other,
            DLsiteProductType::OtherGame => DLsiteProductType::OtherGame,
            DLsiteProductType::Illust => DLsiteProductType::Illust,
            DLsiteProductType::ImageMaterial => DLsiteProductType::ImageMaterial,
            DLsiteProductType::Manga => DLsiteProductType::Manga,
            DLsiteProductType::Anime => DLsiteProductType::Anime,
            DLsiteProductType::Music => DLsiteProductType::Music,
            DLsiteProductType::Novel => DLsiteProductType::Novel,
            DLsiteProductType::Puzzle => DLsiteProductType::Puzzle,
            DLsiteProductType::Quiz => DLsiteProductType::Quiz,
            DLsiteProductType::RolePlaying => DLsiteProductType::RolePlaying,
            DLsiteProductType::Gekiga => DLsiteProductType::Gekiga,
            DLsiteProductType::Simulation => DLsiteProductType::Simulation,
            DLsiteProductType::Voice => DLsiteProductType::Voice,
            DLsiteProductType::Shooter => DLsiteProductType::Shooter,
            DLsiteProductType::Tabletop => DLsiteProductType::Tabletop,
            DLsiteProductType::Utility => DLsiteProductType::Utility,
            DLsiteProductType::Typing => DLsiteProductType::Typing,
            DLsiteProductType::SexualNovel => DLsiteProductType::SexualNovel,
            DLsiteProductType::VoiceComic => DLsiteProductType::VoiceComic,
            DLsiteProductType::Unknown(s) => DLsiteProductType::Unknown(s.clone()),
        }
    }

    /// The name under which the classification is shown and stored.
    pub fn name(&self) -> (r: String)
        ensures
            r@ == self.name_spec(),
    {
        match self {
            DLsiteProductType::Adult => "Adult".to_owned(),
            DLsiteProductType::Doujinsji => "Doujinsji".to_owned(),
            DLsiteProductType::Software => "Software".to_owned(),
            DLsiteProductType::Game => "Game".to_owned(),
            DLsiteProductType::Action => "Action".to_owned(),
            DLsiteProductType::Adventure => "Adventure".to_owned(),
            DLsiteProductType::AudioMaterial => "AudioMaterial".to_owned(),
            DLsiteProductType::Comic => "Comic".to_owned(),
            DLsiteProductType::DigitalNovel => "DigitalNovel".to_owned(),
            DLsiteProductType::Other => "Other".to_owned(),
            DLsiteProductType::OtherGame => "OtherGame".to_owned(),
            DLsiteProductType::Illust => "Illust".to_owned(),
            DLsiteProductType::ImageMaterial => "ImageMaterial".to_owned(),
            DLsiteProductType::Manga => "Manga".to_owned(),
            DLsiteProductType::Anime => "Anime".to_owned(),
            DLsiteProductType::Music => "Music".to_owned(),
            DLsiteProductType::Novel => "Novel".to_owned(),
            DLsiteProductType::Puzzle => "Puzzle".to_owned(),
            DLsiteProductType::Quiz => "Quiz".to_owned(),
            DLsiteProductType::RolePlaying => "RolePlaying".to_owned(),
            DLsiteProductType::Gekiga => "Gekiga".to_owned(),
            DLsiteProductType::Simulation => "Simulation".to_owned(),
            DLsiteProductType::Voice => "Voice".to_owned(),
            DLsiteProductType::Shooter => "Shooter".to_owned(),
            DLsiteProductType::Tabletop => "Tabletop".to_owned(),
            DLsiteProductType::Utility => "Utility".to_owned(),
            DLsiteProductType::Typing => "Typing".to_owned(),
            DLsiteProductType::SexualNovel => "SexualNovel".to_owned(),
            DLsiteProductType::VoiceComic => "VoiceComic".to_owned(),
            DLsiteProductType::Unknown(s) => s.clone(),
        }
    }
}

/// The storefront's age rating of a product.
#[derive(Debug, Clone, PartialEq, Eq, Hash)]
pub enum DLsiteProductAgeCategory {
    All,
    R15,
    R18,
    /// A numeric rating other than 1, 2 or 3.
    UnknownInt(u64),
    /// A textual rating other than `all`, `r15` or `r18`.
    UnknownStr(String),
}

impl DLsiteProductAgeCategory {
    /// The name under which the rating is shown and stored.
    pub open spec fn name_spec(self) -> Seq<char> {
        match self {
            DLsiteProductAgeCategory::All => "All"@,
            DLsiteProductAgeCategory::R15 => "R15"@,
            DLsiteProductAgeCategory::R18 => "R18"@,
            DLsiteProductAgeCategory::UnknownInt(i) => crate::text::decimal(i as nat),
            DLsiteProductAgeCategory::UnknownStr(s) => s@,
        }
    }

    /// The rating that is stored under `name`, if `name` is the name of a known one,
    /// letter for letter.
    pub open spec fn of_name(name: Seq<char>) -> Option<DLsiteProductAgeCategory> {
        if name == "All"@ {
            Some(DLsiteProductAgeCategory::All)
        } else if name == "R15"@ {
            Some(DLsiteProductAgeCategory::R15)
        } else if name == "R18"@ {
            Some(DLsiteProductAgeCategory::R18)
        } else {
            None
        }
    }

    /// Reads a stored name. `None` for a text that names no known rating.
    pub fn from_name(name: &str) -> (value: Option<Self>)
        ensures
            value == Self::of_name(name@),
    {
        if str_eq(name, "All") {
            Some(DLsiteProductAgeCategory::All)
        } else if str_eq(name, "R15") {
            Some(DLsiteProductAgeCategory::R15)
        } else if str_eq(name, "R18") {
            Some(DLsiteProductAgeCategory::R18)
        } else {
            None
        }
    }

    /// The rating that the textual form `value` stands for, if it is a known one.
    pub open spec fn known_of_text(value: Seq<char>) -> Option<DLsiteProductAgeCategory> {
        if value == "all"@ {
            Some(DLsiteProductAgeCategory::All)
        } else if value == "r15"@ {
            Some(DLsiteProductAgeCategory::R15)
        } else if value == "r18"@ {
            Some(DLsiteProductAgeCategory::R18)
        } else {
            None
        }
    }

    /// Reads the numeric form of a rating: 1, 2 and 3 are the known ones.
    pub fn from_u64(value: u64) -> (r: Self)
        ensures
            value == 1 ==> r == DLsiteProductAgeCategory::All,
            value == 2 ==> r == DLsiteProductAgeCategory::R15,
            value == 3 ==> r == DLsiteProductAgeCategory::R18,
            !(1 <= value <= 3) ==> r == DLsiteProductAgeCategory::UnknownInt(value),
    {
        if value == 1 {
            DLsiteProductAgeCategory::All
        } else if value == 2 {
            DLsiteProductAgeCategory::R15
        } else if value == 3 {
            DLsiteProductAgeCategory::R18
        } else {
            DLsiteProductAgeCategory::UnknownInt(value)
        }
    }

    /// Reads the textual form of a rating: `all`, `r15` and `r18` are the known ones, and
    /// any other text is kept in `UnknownStr`.
    pub fn from_text(value: &str) -> (r: Self)
        ensures
            match Self::known_of_text(value@) {
                Some(known) => r == known,
                None => r matches DLsiteProductAgeCategory::UnknownStr(s) && s@ == value@,
            },
    {
        if str_eq(value, "all") {
            DLsiteProductAgeCategory::All
        } else if str_eq(value, "r15") {
            DLsiteProductAgeCategory::R15
        } else if str_eq(value, "r18") {
            DLsiteProductAgeCategory::R18
        } else {
            DLsiteProductAgeCategory::UnknownStr(value.to_owned())
        }
    }

    /// A copy of the rating.
    pub fn duplicate(&self) -> (copy: Self)
        ensures
            copy == *self,
    {
        match self {
            DLsiteProductAgeCategory::All => DLsiteProductAgeCategory::All,
            DLsiteProductAgeCategory::R15 => DLsiteProductAgeCategory::R15,
            DLsiteProductAgeCategory::R18 => DLsiteProductAgeCategory::R18,
            DLsiteProductAgeCategory::UnknownInt(i) => DLsiteProductAgeCategory::UnknownInt(*i),
            DLsiteProductAgeCategory::UnknownStr(s) => DLsiteProductAgeCategory::UnknownStr(
                s.clone(),
            ),
        }
    }

    /// The name under which the rating is shown and stored.
    pub fn name(&self) -> (r: String)
        ensures
            r@ == self.name_spec(),
    {
        match self {
            DLsiteProductAgeCategory::All => "All".to_owned(),
            DLsiteProductAgeCategory::R15 => "R15".to_owned(),
            DLsiteProductAgeCategory::R18 => "R18".to_owned(),
            DLsiteProductAgeCategory::UnknownInt(i) => crate::text::u64_to_decimal(*i),
            DLsiteProductAgeCategory::UnknownStr(s) => s.clone(),
        }
    }
}

/// A text that the storefront gives in up to five languages.
#[derive(Debug, Clone)]
pub struct DLsiteProductI18nString {
    pub japanese: Option<String>,
    pub english: Option<String>,
    pub korean: Option<String>,
    pub taiwanese: Option<String>,
    pub chinese: Option<String>,
}

impl DLsiteProductI18nString {
    /// The text in the first language that has one, in the order Japanese, English,
    /// Korean, Taiwanese, Chinese.
    pub open spec fn preferred(self) -> Option<Seq<char>> {
        if let Some(s) = self.japanese {
            Some(s@)
        } else if let Some(s) = self.english {
            Some(s@)
        } else if let Some(s) = self.korean {
            Some(s@)
        } else if let Some(s) = self.taiwanese {
            Some(s@)
        } else if let Some(s) = self.chinese {
            Some(s@)
        } else {
            None
        }
    }
}

/// The pictures of a product.
#[derive(Debug, Clone)]
pub struct DLsiteProductIcon {
    pub main: String,
}

/// The group (maker) behind a product.
#[derive(Debug, Clone)]
pub struct DLsiteProductGroup {
    pub id: String,
    pub name: DLsiteProductI18nString,
}

/// One purchase as the owner's listing gives it.
#[derive(Debug, Clone)]
pub struct DLsiteProductFromOwnerApi {
    pub id: String,
    pub ty: DLsiteProductType,
    pub age: DLsiteProductAgeCategory,
    pub title: DLsiteProductI18nString,
    pub icon: DLsiteProductIcon,
    pub group: DLsiteProductGroup,
    /// Seconds since the Unix epoch, UTC.
    pub registered_at: i64,
}

/// One page of the owner's listing.
#[derive(Debug, Clone)]
pub struct DLsiteProductListFromOwnerApi {
    pub limit: u32,
    pub offset: u32,
    pub works: Vec<DLsiteProductFromOwnerApi>,
}

/// A product as the public lookup gives it. The group's name is not part of it, and the
/// registration date is local storefront time, written `YYYY-MM-DD HH:MM:SS`.
#[derive(Debug, Clone)]
pub struct DLsiteProductFromNonOwnerApi {
    pub ty: DLsiteProductType,
    pub age: DLsiteProductAgeCategory,
    pub title: String,
    pub thumbnail: String,
    pub group_id: String,
    pub registered_at: String,
}

/// A catalog entry: one product, reduced to a single language.
#[derive(Debug, Clone)]
pub struct DLsiteProduct {
    pub id: String,
    pub ty: DLsiteProductType,
    pub age: DLsiteProductAgeCategory,
    pub title: String,
    pub thumbnail: String,
    pub group_id: String,
    pub group_name: String,
    /// Seconds since the Unix epoch, UTC.
    pub registered_at: i64,
}

/// One remote content file of a product, with the size the storefront declares for it.
#[derive(Debug, Clone)]
pub struct DLsiteProductFile {
    pub file_name: String,
    /// The size in bytes, in decimal notation.
    pub file_size: String,
}

/// The file manifest of a product: its remote content files, in order.
#[derive(Debug, Clone)]
pub struct DLsiteProductFiles {
    pub files: Vec<DLsiteProductFile>,
}

/// The signed request descriptor of a voice or video comic: the address below which its
/// assets lie, and the cookies that sign the requests for them.
#[derive(Debug, Clone)]
pub struct DLsiteVoiceComicRequestInfo {
    pub url: String,
    /// Name and value of each cookie.
    pub cookies: Vec<(String, String)>,
}

/// One named media asset of a voice or video comic.
#[derive(Debug, Clone)]
pub struct DLsiteVoiceComicAsset {
    /// The name under which the principal media file is kept.
    pub name: String,
    /// The hash from which the remote names of the asset's files derive.
    pub hash: String,
    /// Whether a subtitle file accompanies the principal media file.
    pub has_subtitle: bool,
}

/// The manifest of named media assets of a voice or video comic.
#[derive(Debug, Clone)]
pub struct DLsiteVoiceComicZipTree {
    pub assets: Vec<DLsiteVoiceComicAsset>,
}

} // verus!
