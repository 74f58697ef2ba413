//! Closed catalog of visual themes.
//!
//! Themes are identified as *PascalCase* enum members and as *kebab-case*
//! strings; every member resolves to exactly one canonical string, used both
//! for matching configuration values and for building stylesheet URLs.

use vstd::prelude::*;

verus! {

/// Supported themes.
#[derive(Clone, Copy, Debug, PartialEq, Eq, Structural)]
pub enum HljsTheme {
    A11yDark,
    A11yLight,
    Agate,
    AnOldHope,
    Androidstudio,
    ArduinoLight,
    Arta,
    Ascetic,
    AtelierCave,
    AtelierCaveLight,
    AtelierDune,
    AtelierDuneLight,
    AtelierEstuary,
    AtelierEstuaryLight,
    AtelierForest,
    AtelierForestLight,
    AtelierHeath,
    AtelierHeathLight,
    AtelierLakeside,
    AtelierLakesideLight,
    AtelierPlateau,
    AtelierPlateauLight,
    AtelierSavanna,
    AtelierSavannaLight,
    AtelierSeaside,
    AtelierSeasideLight,
    AtelierSulphurpool,
    AtelierSulphurpoolLight,
    AtomOneDark,
    AtomOneDarkReasonable,
    AtomOneLight,
    BrownPaper,
    CodepenEmbed,
    ColorBrewer,
    Darcula,
    Dark,
    Default,
    Devibeans,
    Docco,
    Dracula,
    Far,
    Foundation,
    Framer,
    Gigavolt,
    Github,
    Gml,
    Googlecode,
    GradientDark,
    GradientLight,
    Grayscale,
    GruvboxDarkHard,
    GruvboxLightHard,
    Hopscotch,
    Hybrid,
    Idea,
    IrBlack,
    KimbieDark,
    KimbieLight,
    Lightfair,
    Lioshi,
    Magula,
    MonoBlue,
    Monokai,
    MonokaiSublime,
    NightOwl,
    NnfxDark,
    NnfxLight,
    Obsidian,
    Ocean,
    Oceanicnext,
    PandaSyntaxDark,
    PandaSyntaxLight,
    Pojoaque,
    Purebasic,
    QtcreatorDark,
    QtcreatorLight,
    Railcasts,
    Rainbow,
    Routeros,
    SchoolBook,
    ShapesOfPurple,
    SolarizedDark,
    SolarizedLight,
    Srcery,
    StackoverflowDark,
    StackoverflowLight,
    Sunburst,
    TokioNightDark,
    TokioNightLight,
    Tomorrow,
    TomorrowNight,
    TomorrowNightBlue,
    TomorrowNightBright,
    Vs,
    Vs2015,
    Xcode,
    Xt256,
    Zenburn,
}

impl HljsTheme {
    /// Canonical kebab-case name of this theme.
    pub open spec fn spec_name(self) -> Seq<char> {
        match self {
            HljsTheme::A11yDark => "a11y-dark"@,
            HljsTheme::A11yLight => "a11y-light"@,
            HljsTheme::Agate => "agate"@,
            HljsTheme::AnOldHope => "an-old-hope"@,
            HljsTheme::Androidstudio => "androidstudio"@,
            HljsTheme::ArduinoLight => "arduino-light"@,
            HljsTheme::Arta => "arta"@,
            HljsTheme::Ascetic => "ascetic"@,
            HljsTheme::AtelierCave => "atelier-cave"@,
            HljsTheme::AtelierCaveLight => "atelier-cave-light"@,
            HljsTheme::AtelierDune => "atelier-dune"@,
            HljsTheme::AtelierDuneLight => "atelier-dune-light"@,
            HljsTheme::AtelierEstuary => "atelier-estuary"@,
            HljsTheme::AtelierEstuaryLight => "atelier-estuary-light"@,
            HljsTheme::AtelierForest => "atelier-forest"@,
            HljsTheme::AtelierForestLight => "atelier-forest-light"@,
            HljsTheme::AtelierHeath => "atelier-heath"@,
            HljsTheme::AtelierHeathLight => "atelier-heath-light"@,
            HljsTheme::AtelierLakeside => "atelier-lakeside"@,
            HljsTheme::AtelierLakesideLight => "atelier-lakeside-light"@,
            HljsTheme::AtelierPlateau => "atelier-plateau"@,
            HljsTheme::AtelierPlateauLight => "atelier-plateau-light"@,
            HljsTheme::AtelierSavanna => "atelier-savanna"@,
            HljsTheme::AtelierSavannaLight => "atelier-savanna-light"@,
            HljsTheme::AtelierSeaside => "atelier-seaside"@,
            HljsTheme::AtelierSeasideLight => "atelier-seaside-light"@,
            HljsTheme::AtelierSulphurpool => "atelier-sulphurpool"@,
            HljsTheme::AtelierSulphurpoolLight => "atelier-sulphurpool-light"@,
            HljsTheme::AtomOneDark => "atom-one-dark"@,
            HljsTheme::AtomOneDarkReasonable => "atom-one-dark-reasonable"@,
            HljsTheme::AtomOneLight => "atom-one-light"@,
            HljsTheme::BrownPaper => "brown-paper"@,
            HljsTheme::CodepenEmbed => "codepen-embed"@,
            HljsTheme::ColorBrewer => "color-brewer"@,
            HljsTheme::Darcula => "darcula"@,
            HljsTheme::Dark => "dark"@,
            HljsTheme::Default => "default"@,
            HljsTheme::Devibeans => "devibeans"@,
            HljsTheme::Docco => "docco"@,
            HljsTheme::Dracula => "dracula"@,
            HljsTheme::Far => "far"@,
            HljsTheme::Foundation => "foundation"@,
            HljsTheme::Framer => "framer"@,
            HljsTheme::Gigavolt => "gigavolt"@,
            HljsTheme::Github => "github"@,
            HljsTheme::Gml => "gml"@,
            HljsTheme::Googlecode => "googlecode"@,
            HljsTheme::GradientDark => "gradient-dark"@,
            HljsTheme::GradientLight => "gradient-light"@,
            HljsTheme::Grayscale => "grayscale"@,
            HljsTheme::GruvboxDarkHard => "gruvbox-dark-hard"@,
            HljsTheme::GruvboxLightHard => "gruvbox-light-hard"@,
            HljsTheme::Hopscotch => "hopscotch"@,
            HljsTheme::Hybrid => "hybrid"@,
            HljsTheme::Idea => "idea"@,
            HljsTheme::IrBlack => "ir-black"@,
            HljsTheme::KimbieDark => "kimbie-dark"@,
            HljsTheme::KimbieLight => "kimbie-light"@,
            HljsTheme::Lightfair => "lightfair"@,
            HljsTheme::Lioshi => "lioshi"@,
            HljsTheme::Magula => "magula"@,
            HljsTheme::MonoBlue => "mono-blue"@,
            HljsTheme::Monokai => "monokai"@,
            HljsTheme::MonokaiSublime => "monokai-sublime"@,
            HljsTheme::NightOwl => "night-owl"@,
            HljsTheme::NnfxDark => "nnfx-dark"@,
            HljsTheme::NnfxLight => "nnfx-light"@,
            HljsTheme::Obsidian => "obsidian"@,
            HljsTheme::Ocean => "ocean"@,
            HljsTheme::Oceanicnext => "oceanicnext"@,
            HljsTheme::PandaSyntaxDark => "panda-syntax-dark"@,
            HljsTheme::PandaSyntaxLight => "panda-syntax-light"@,
            HljsTheme::Pojoaque => "pojoaque"@,
            HljsTheme::Purebasic => "purebasic"@,
            HljsTheme::QtcreatorDark => "qtcreator-dark"@,
            HljsTheme::QtcreatorLight => "qtcreator-light"@,
            HljsTheme::Railcasts => "railcasts"@,
            HljsTheme::Rainbow => "rainbow"@,
            HljsTheme::Routeros => "routeros"@,
            HljsTheme::SchoolBook => "school-book"@,
            HljsTheme::ShapesOfPurple => "shapes-of-purple"@,
            HljsTheme::SolarizedDark => "solarized-dark"@,
            HljsTheme::SolarizedLight => "solarized-light"@,
            HljsTheme::Srcery => "srcery"@,
            HljsTheme::StackoverflowDark => "stackoverflow-dark"@,
            HljsTheme::StackoverflowLight => "stackoverflow-light"@,
            HljsTheme::Sunburst => "sunburst"@,
            HljsTheme::TokioNightDark => "tokio-night-dark"@,
            HljsTheme::TokioNightLight => "tokio-night-light"@,
            HljsTheme::Tomorrow => "tomorrow"@,
            HljsTheme::TomorrowNight => "tomorrow-night"@,
            HljsTheme::TomorrowNightBlue => "tomorrow-night-blue"@,
            HljsTheme::TomorrowNightBright => "tomorrow-night-bright"@,
            HljsTheme::Vs => "vs"@,
            HljsTheme::Vs2015 => "vs2015"@,
            HljsTheme::Xcode => "xcode"@,
            HljsTheme::Xt256 => "xt256"@,
            HljsTheme::Zenburn => "zenburn"@,
        }
    }

    /// Returns the canonical kebab-case name of this theme.
    pub fn name(&self) -> (r: &'static str)
        ensures
            r@ == self.spec_name(),
    {
        match self {
            HljsTheme::A11yDark => "a11y-dark",
            HljsTheme::A11yLight => "a11y-light",
            HljsTheme::Agate => "agate",
            HljsTheme::AnOldHope => "an-old-hope",
            HljsTheme::Androidstudio => "androidstudio",
            HljsTheme::ArduinoLight => "arduino-light",
            HljsTheme::Arta => "arta",
            HljsTheme::Ascetic => "ascetic",
            HljsTheme::AtelierCave => "atelier-cave",
            HljsTheme::AtelierCaveLight => "atelier-cave-light",
            HljsTheme::AtelierDune => "atelier-dune",
            HljsTheme::AtelierDuneLight => "atelier-dune-light",
            HljsTheme::AtelierEstuary => "atelier-estuary",
            HljsTheme::AtelierEstuaryLight => "atelier-estuary-light",
            HljsTheme::AtelierForest => "atelier-forest",
            HljsTheme::AtelierForestLight => "atelier-forest-light",
            HljsTheme::AtelierHeath => "atelier-heath",
            HljsTheme::AtelierHeathLight => "atelier-heath-light",
            HljsTheme::AtelierLakeside => "atelier-lakeside",
            HljsTheme::AtelierLakesideLight => "atelier-lakeside-light",
            HljsTheme::AtelierPlateau => "atelier-plateau",
            HljsTheme::AtelierPlateauLight => "atelier-plateau-light",
            HljsTheme::AtelierSavanna => "atelier-savanna",
            HljsTheme::AtelierSavannaLight => "atelier-savanna-light",
            HljsTheme::AtelierSeaside => "atelier-seaside",
            HljsTheme::AtelierSeasideLight => "atelier-seaside-light",
            HljsTheme::AtelierSulphurpool => "atelier-sulphurpool",
            HljsTheme::AtelierSulphurpoolLight => "atelier-sulphurpool-light",
            HljsTheme::AtomOneDark => "atom-one-dark",
            HljsTheme::AtomOneDarkReasonable => "atom-one-dark-reasonable",
            HljsTheme::AtomOneLight => "atom-one-light",
            HljsTheme::BrownPaper => "brown-paper",
            HljsTheme::CodepenEmbed => "codepen-embed",
            HljsTheme::ColorBrewer => "color-brewer",
            HljsTheme::Darcula => "darcula",
            HljsTheme::Dark => "dark",
            HljsTheme::Default => "default",
            HljsTheme::Devibeans => "devibeans",
            HljsTheme::Docco => "docco",
            HljsTheme::Dracula => "dracula",
            HljsTheme::Far => "far",
            HljsTheme::Foundation => "foundation",
            HljsTheme::Framer => "framer",
            HljsTheme::Gigavolt => "gigavolt",
            HljsTheme::Github => "github",
            HljsTheme::Gml => "gml",
            HljsTheme::Googlecode => "googlecode",
            HljsTheme::GradientDark => "gradient-dark",
            HljsTheme::GradientLight => "gradient-light",
            HljsTheme::Grayscale => "grayscale",
            HljsTheme::GruvboxDarkHard => "gruvbox-dark-hard",
            HljsTheme::GruvboxLightHard => "gruvbox-light-hard",
            HljsTheme::Hopscotch => "hopscotch",
            HljsTheme::Hybrid => "hybrid",
            HljsTheme::Idea => "idea",
            HljsTheme::IrBlack => "ir-black",
            HljsTheme::KimbieDark => "kimbie-dark",
            HljsTheme::KimbieLight => "kimbie-light",
            HljsTheme::Lightfair => "lightfair",
            HljsTheme::Lioshi => "lioshi",
            HljsTheme::Magula => "magula",
            HljsTheme::MonoBlue => "mono-blue",
            HljsTheme::Monokai => "monokai",
            HljsTheme::MonokaiSublime => "monokai-sublime",
            HljsTheme::NightOwl => "night-owl",
            HljsTheme::NnfxDark => "nnfx-dark",
            HljsTheme::NnfxLight => "nnfx-light",
            HljsTheme::Obsidian => "obsidian",
            HljsTheme::Ocean => "ocean",
            HljsTheme::Oceanicnext => "oceanicnext",
            HljsTheme::PandaSyntaxDark => "panda-syntax-dark",
            HljsTheme::PandaSyntaxLight => "panda-syntax-light",
            HljsTheme::Pojoaque => "pojoaque",
            HljsTheme::Purebasic => "purebasic",
            HljsTheme::QtcreatorDark => "qtcreator-dark",
            HljsTheme::QtcreatorLight => "qtcreator-light",
            HljsTheme::Railcasts => "railcasts",
            HljsTheme::Rainbow => "rainbow",
            HljsTheme::Routeros => "routeros",
            HljsTheme::SchoolBook => "school-book",
            HljsTheme::ShapesOfPurple => "shapes-of-purple",
            HljsTheme::SolarizedDark => "solarized-dark",
            HljsTheme::SolarizedLight => "solarized-light",
            HljsTheme::Srcery => "srcery",
            HljsTheme::StackoverflowDark => "stackoverflow-dark",
            HljsTheme::StackoverflowLight => "stackoverflow-light",
            HljsTheme::Sunburst => "sunburst",
            HljsTheme::TokioNightDark => "tokio-night-dark",
            HljsTheme::TokioNightLight => "tokio-night-light",
            HljsTheme::Tomorrow => "tomorrow",
            HljsTheme::TomorrowNight => "tomorrow-night",
            HljsTheme::TomorrowNightBlue => "tomorrow-night-blue",
            HljsTheme::TomorrowNightBright => "tomorrow-night-bright",
            HljsTheme::Vs => "vs",
            HljsTheme::Vs2015 => "vs2015",
            HljsTheme::Xcode => "xcode",
            HljsTheme::Xt256 => "xt256",
            HljsTheme::Zenburn => "zenburn",
        }
    }

    /// Returns the canonical kebab-case name of this theme as an owned
    /// string.
    pub fn to_string(&self) -> (r: String)
        ensures
            r@ == self.spec_name(),
    {
        String::from_str(self.name())
    }

    /// Theme denoted by a canonical kebab-case name, if it is recognized.
    pub open spec fn spec_from_name(s: Seq<char>) -> Option<HljsTheme> {
        if s == "a11y-dark"@ {
            Some(HljsTheme::A11yDark)
        } else if s == "a11y-light"@ {
            Some(HljsTheme::A11yLight)
        } else if s == "agate"@ {
            Some(HljsTheme::Agate)
        } else if s == "an-old-hope"@ {
            Some(HljsTheme::AnOldHope)
        } else if s == "androidstudio"@ {
            Some(HljsTheme::Androidstudio)
        } else if s == "arduino-light"@ {
            Some(HljsTheme::ArduinoLight)
        } else if s == "arta"@ {
            Some(HljsTheme::Arta)
        } else if s == "ascetic"@ {
            Some(HljsTheme::Ascetic)
        } else if s == "atelier-cave"@ {
            Some(HljsTheme::AtelierCave)
        } else if s == "atelier-cave-light"@ {
            Some(HljsTheme::AtelierCaveLight)
        } else if s == "atelier-dune"@ {
            Some(HljsTheme::AtelierDune)
        } else if s == "atelier-dune-light"@ {
            Some(HljsTheme::AtelierDuneLight)
        } else if s == "atelier-estuary"@ {
            Some(HljsTheme::AtelierEstuary)
        } else if s == "atelier-estuary-light"@ {
            Some(HljsTheme::AtelierEstuaryLight)
        } else if s == "atelier-forest"@ {
            Some(HljsTheme::AtelierForest)
        } else if s == "atelier-forest-light"@ {
            Some(HljsTheme::AtelierForestLight)
        } else if s == "atelier-heath"@ {
            Some(HljsTheme::AtelierHeath)
        } else if s == "atelier-heath-light"@ {
            Some(HljsTheme::AtelierHeathLight)
        } else if s == "atelier-lakeside"@ {
            Some(HljsTheme::AtelierLakeside)
        } else if s == "atelier-lakeside-light"@ {
            Some(HljsTheme::AtelierLakesideLight)
        } else if s == "atelier-plateau"@ {
            Some(HljsTheme::AtelierPlateau)
        } else if s == "atelier-plateau-light"@ {
            Some(HljsTheme::AtelierPlateauLight)
        } else if s == "atelier-savanna"@ {
            Some(HljsTheme::AtelierSavanna)
        } else if s == "atelier-savanna-light"@ {
            Some(HljsTheme::AtelierSavannaLight)
        } else if s == "atelier-seaside"@ {
            Some(HljsTheme::AtelierSeaside)
        } else if s == "atelier-seaside-light"@ {
            Some(HljsTheme::AtelierSeasideLight)
        } else if s == "atelier-sulphurpool"@ {
            Some(HljsTheme::AtelierSulphurpool)
        } else if s == "atelier-sulphurpool-light"@ {
            Some(HljsTheme::AtelierSulphurpoolLight)
        } else if s == "atom-one-dark"@ {
            Some(HljsTheme::AtomOneDark)
        } else if s == "atom-one-dark-reasonable"@ {
            Some(HljsTheme::AtomOneDarkReasonable)
        } else if s == "atom-one-light"@ {
            Some(HljsTheme::AtomOneLight)
        } else if s == "brown-paper"@ {
            Some(HljsTheme::BrownPaper)
        } else if s == "codepen-embed"@ {
            Some(HljsTheme::CodepenEmbed)
        } else if s == "color-brewer"@ {
            Some(HljsTheme::ColorBrewer)
        } else if s == "darcula"@ {
            Some(HljsTheme::Darcula)
        } else if s == "dark"@ {
            Some(HljsTheme::Dark)
        } else if s == "default"@ {
            Some(HljsTheme::Default)
        } else if s == "devibeans"@ {
            Some(HljsTheme::Devibeans)
        } else if s == "docco"@ {
            Some(HljsTheme::Docco)
        } else if s == "dracula"@ {
            Some(HljsTheme::Dracula)
        } else if s == "far"@ {
            Some(HljsTheme::Far)
        } else if s == "foundation"@ {
            Some(HljsTheme::Foundation)
        } else if s == "framer"@ {
            Some(HljsTheme::Framer)
        } else if s == "gigavolt"@ {
            Some(HljsTheme::Gigavolt)
        } else if s == "github"@ {
            Some(HljsTheme::Github)
        } else if s == "gml"@ {
            Some(HljsTheme::Gml)
        } else if s == "googlecode"@ {
            Some(HljsTheme::Googlecode)
        } else if s == "gradient-dark"@ {
            Some(HljsTheme::GradientDark)
        } else if s == "gradient-light"@ {
            Some(HljsTheme::GradientLight)
        } else if s == "grayscale"@ {
            Some(HljsTheme::Grayscale)
        } else if s == "gruvbox-dark-hard"@ {
            Some(HljsTheme::GruvboxDarkHard)
        } else if s == "gruvbox-light-hard"@ {
            Some(HljsTheme::GruvboxLightHard)
        } else if s == "hopscotch"@ {
            Some(HljsTheme::Hopscotch)
        } else if s == "hybrid"@ {
            Some(HljsTheme::Hybrid)
        } else if s == "idea"@ {
            Some(HljsTheme::Idea)
        } else if s == "ir-black"@ {
            Some(HljsTheme::IrBlack)
        } else if s == "kimbie-dark"@ {
            Some(HljsTheme::KimbieDark)
        } else if s == "kimbie-light"@ {
            Some(HljsTheme::KimbieLight)
        } else if s == "lightfair"@ {
            Some(HljsTheme::Lightfair)
        } else if s == "lioshi"@ {
            Some(HljsTheme::Lioshi)
        } else if s == "magula"@ {
            Some(HljsTheme::Magula)
        } else if s == "mono-blue"@ {
            Some(HljsTheme::MonoBlue)
        } else if s == "monokai"@ {
            Some(HljsTheme::Monokai)
        } else if s == "monokai-sublime"@ {
            Some(HljsTheme::MonokaiSublime)
        } else if s == "night-owl"@ {
            Some(HljsTheme::NightOwl)
        } else if s == "nnfx-dark"@ {
            Some(HljsTheme::NnfxDark)
        } else if s == "nnfx-light"@ {
            Some(HljsTheme::NnfxLight)
        } else if s == "obsidian"@ {
            Some(HljsTheme::Obsidian)
        } else if s == "ocean"@ {
            Some(HljsTheme::Ocean)
        } else if s == "oceanicnext"@ {
            Some(HljsTheme::Oceanicnext)
        } else if s == "panda-syntax-dark"@ {
            Some(HljsTheme::PandaSyntaxDark)
        } else if s == "panda-syntax-light"@ {
            Some(HljsTheme::PandaSyntaxLight)
        } else if s == "pojoaque"@ {
            Some(HljsTheme::Pojoaque)
        } else if s == "purebasic"@ {
            Some(HljsTheme::Purebasic)
        } else if s == "qtcreator-dark"@ {
            Some(HljsTheme::QtcreatorDark)
        } else if s == "qtcreator-light"@ {
            Some(HljsTheme::QtcreatorLight)
        } else if s == "railcasts"@ {
            Some(HljsTheme::Railcasts)
        } else if s == "rainbow"@ {
            Some(HljsTheme::Rainbow)
        } else if s == "routeros"@ {
            Some(HljsTheme::Routeros)
        } else if s == "school-book"@ {
            Some(HljsTheme::SchoolBook)
        } else if s == "shapes-of-purple"@ {
            Some(HljsTheme::ShapesOfPurple)
        } else if s == "solarized-dark"@ {
            Some(HljsTheme::SolarizedDark)
        } else if s == "solarized-light"@ {
            Some(HljsTheme::SolarizedLight)
        } else if s == "srcery"@ {
            Some(HljsTheme::Srcery)
        } else if s == "stackoverflow-dark"@ {
            Some(HljsTheme::StackoverflowDark)
        } else if s == "stackoverflow-light"@ {
            Some(HljsTheme::StackoverflowLight)
        } else if s == "sunburst"@ {
            Some(HljsTheme::Sunburst)
        } else if s == "tokio-night-dark"@ {
            Some(HljsTheme::TokioNightDark)
        } else if s == "tokio-night-light"@ {
            Some(HljsTheme::TokioNightLight)
        } else if s == "tomorrow"@ {
            Some(HljsTheme::Tomorrow)
        } else if s == "tomorrow-night"@ {
            Some(HljsTheme::TomorrowNight)
        } else if s == "tomorrow-night-blue"@ {
            Some(HljsTheme::TomorrowNightBlue)
        } else if s == "tomorrow-night-bright"@ {
            Some(HljsTheme::TomorrowNightBright)
        } else if s == "vs"@ {
            Some(HljsTheme::Vs)
        } else if s == "vs2015"@ {
            Some(HljsTheme::Vs2015)
        } else if s == "xcode"@ {
            Some(HljsTheme::Xcode)
        } else if s == "xt256"@ {
            Some(HljsTheme::Xt256)
        } else if s == "zenburn"@ {
            Some(HljsTheme::Zenburn)
        } else {
            None
        }
    }

    /// Looks a theme up by its canonical name; `None` outside the closed
    /// catalog.
    pub fn from_name(s: &str) -> (r: Option<HljsTheme>)
        ensures
            r == HljsTheme::spec_from_name(s@),
    {
        if crate::text::str_eq(s, "a11y-dark") {
            Some(HljsTheme::A11yDark)
        } else if crate::text::str_eq(s, "a11y-light") {
            Some(HljsTheme::A11yLight)
        } else if crate::text::str_eq(s, "agate") {
            Some(HljsTheme::Agate)
        } else if crate::text::str_eq(s, "an-old-hope") {
            Some(HljsTheme::AnOldHope)
        } else if crate::text::str_eq(s, "androidstudio") {
            Some(HljsTheme::Androidstudio)
        } else if crate::text::str_eq(s, "arduino-light") {
            Some(HljsTheme::ArduinoLight)
        } else if crate::text::str_eq(s, "arta") {
            Some(HljsTheme::Arta)
        } else if crate::text::str_eq(s, "ascetic") {
            Some(HljsTheme::Ascetic)
        } else if crate::text::str_eq(s, "atelier-cave") {
            Some(HljsTheme::AtelierCave)
        } else if crate::text::str_eq(s, "atelier-cave-light") {
            Some(HljsTheme::AtelierCaveLight)
        } else if crate::text::str_eq(s, "atelier-dune") {
            Some(HljsTheme::AtelierDune)
        } else if crate::text::str_eq(s, "atelier-dune-light") {
            Some(HljsTheme::AtelierDuneLight)
        } else if crate::text::str_eq(s, "atelier-estuary") {
            Some(HljsTheme::AtelierEstuary)
        } else if crate::text::str_eq(s, "atelier-estuary-light") {
            Some(HljsTheme::AtelierEstuaryLight)
        } else if crate::text::str_eq(s, "atelier-forest") {
            Some(HljsTheme::AtelierForest)
        } else if crate::text::str_eq(s, "atelier-forest-light") {
            Some(HljsTheme::AtelierForestLight)
        } else if crate::text::str_eq(s, "atelier-heath") {
            Some(HljsTheme::AtelierHeath)
        } else if crate::text::str_eq(s, "atelier-heath-light") {
            Some(HljsTheme::AtelierHeathLight)
        } else if crate::text::str_eq(s, "atelier-lakeside") {
            Some(HljsTheme::AtelierLakeside)
        } else if crate::text::str_eq(s, "atelier-lakeside-light") {
            Some(HljsTheme::AtelierLakesideLight)
        } else if crate::text::str_eq(s, "atelier-plateau") {
            Some(HljsTheme::AtelierPlateau)
        } else if crate::text::str_eq(s, "atelier-plateau-light") {
            Some(HljsTheme::AtelierPlateauLight)
        } else if crate::text::str_eq(s, "atelier-savanna") {
            Some(HljsTheme::AtelierSavanna)
        } else if crate::text::str_eq(s, "atelier-savanna-light") {
            Some(HljsTheme::AtelierSavannaLight)
        } else if crate::text::str_eq(s, "atelier-seaside") {
            Some(HljsTheme::AtelierSeaside)
        } else if crate::text::str_eq(s, "atelier-seaside-light") {
            Some(HljsTheme::AtelierSeasideLight)
        } else if crate::text::str_eq(s, "atelier-sulphurpool") {
            Some(HljsTheme::AtelierSulphurpool)
        } else if crate::text::str_eq(s, "atelier-sulphurpool-light") {
            Some(HljsTheme::AtelierSulphurpoolLight)
        } else if crate::text::str_eq(s, "atom-one-dark") {
            Some(HljsTheme::AtomOneDark)
        } else if crate::text::str_eq(s, "atom-one-dark-reasonable") {
            Some(HljsTheme::AtomOneDarkReasonable)
        } else if crate::text::str_eq(s, "atom-one-light") {
            Some(HljsTheme::AtomOneLight)
        } else if crate::text::str_eq(s, "brown-paper") {
            Some(HljsTheme::BrownPaper)
        } else if crate::text::str_eq(s, "codepen-embed") {
            Some(HljsTheme::CodepenEmbed)
        } else if crate::text::str_eq(s, "color-brewer") {
            Some(HljsTheme::ColorBrewer)
        } else if crate::text::str_eq(s, "darcula") {
            Some(HljsTheme::Darcula)
        } else if crate::text::str_eq(s, "dark") {
            Some(HljsTheme::Dark)
        } else if crate::text::str_eq(s, "default") {
            Some(HljsTheme::Default)
        } else if crate::text::str_eq(s, "devibeans") {
            Some(HljsTheme::Devibeans)
        } else if crate::text::str_eq(s, "docco") {
            Some(HljsTheme::Docco)
        } else if crate::text::str_eq(s, "dracula") {
            Some(HljsTheme::Dracula)
        } else if crate::text::str_eq(s, "far") {
            Some(HljsTheme::Far)
        } else if crate::text::str_eq(s, "foundation") {
            Some(HljsTheme::Foundation)
        } else if crate::text::str_eq(s, "framer") {
            Some(HljsTheme::Framer)
        } else if crate::text::str_eq(s, "gigavolt") {
            Some(HljsTheme::Gigavolt)
        } else if crate::text::str_eq(s, "github") {
            Some(HljsTheme::Github)
        } else if crate::text::str_eq(s, "gml") {
            Some(HljsTheme::Gml)
        } else if crate::text::str_eq(s, "googlecode") {
            Some(HljsTheme::Googlecode)
        } else if crate::text::str_eq(s, "gradient-dark") {
            Some(HljsTheme::GradientDark)
        } else if crate::text::str_eq(s, "gradient-light") {
            Some(HljsTheme::GradientLight)
        } else if crate::text::str_eq(s, "grayscale") {
            Some(HljsTheme::Grayscale)
        } else if crate::text::str_eq(s, "gruvbox-dark-hard") {
            Some(HljsTheme::GruvboxDarkHard)
        } else if crate::text::str_eq(s, "gruvbox-light-hard") {
            Some(HljsTheme::GruvboxLightHard)
        } else if crate::text::str_eq(s, "hopscotch") {
            Some(HljsTheme::Hopscotch)
        } else if crate::text::str_eq(s, "hybrid") {
            Some(HljsTheme::Hybrid)
        } else if crate::text::str_eq(s, "idea") {
            Some(HljsTheme::Idea)
        } else if crate::text::str_eq(s, "ir-black") {
            Some(HljsTheme::IrBlack)
        } else if crate::text::str_eq(s, "kimbie-dark") {
            Some(HljsTheme::KimbieDark)
        } else if crate::text::str_eq(s, "kimbie-light") {
            Some(HljsTheme::KimbieLight)
        } else if crate::text::str_eq(s, "lightfair") {
            Some(HljsTheme::Lightfair)
        } else if crate::text::str_eq(s, "lioshi") {
            Some(HljsTheme::Lioshi)
        } else if crate::text::str_eq(s, "magula") {
            Some(HljsTheme::Magula)
        } else if crate::text::str_eq(s, "mono-blue") {
            Some(HljsTheme::MonoBlue)
        } else if crate::text::str_eq(s, "monokai") {
            Some(HljsTheme::Monokai)
        } else if crate::text::str_eq(s, "monokai-sublime") {
            Some(HljsTheme::MonokaiSublime)
        } else if crate::text::str_eq(s, "night-owl") {
            Some(HljsTheme::NightOwl)
        } else if crate::text::str_eq(s, "nnfx-dark") {
            Some(HljsTheme::NnfxDark)
        } else if crate::text::str_eq(s, "nnfx-light") {
            Some(HljsTheme::NnfxLight)
        } else if crate::text::str_eq(s, "obsidian") {
            Some(HljsTheme::Obsidian)
        } else if crate::text::str_eq(s, "ocean") {
            Some(HljsTheme::Ocean)
        } else if crate::text::str_eq(s, "oceanicnext") {
            Some(HljsTheme::Oceanicnext)
        } else if crate::text::str_eq(s, "panda-syntax-dark") {
            Some(HljsTheme::PandaSyntaxDark)
        } else if crate::text::str_eq(s, "panda-syntax-light") {
            Some(HljsTheme::PandaSyntaxLight)
        } else if crate::text::str_eq(s, "pojoaque") {
            Some(HljsTheme::Pojoaque)
        } else if crate::text::str_eq(s, "purebasic") {
            Some(HljsTheme::Purebasic)
        } else if crate::text::str_eq(s, "qtcreator-dark") {
            Some(HljsTheme::QtcreatorDark)
        } else if crate::text::str_eq(s, "qtcreator-light") {
            Some(HljsTheme::QtcreatorLight)
        } else if crate::text::str_eq(s, "railcasts") {
            Some(HljsTheme::Railcasts)
        } else if crate::text::str_eq(s, "rainbow") {
            Some(HljsTheme::Rainbow)
        } else if crate::text::str_eq(s, "routeros") {
            Some(HljsTheme::Routeros)
        } else if crate::text::str_eq(s, "school-book") {
            Some(HljsTheme::SchoolBook)
        } else if crate::text::str_eq(s, "shapes-of-purple") {
            Some(HljsTheme::ShapesOfPurple)
        } else if crate::text::str_eq(s, "solarized-dark") {
            Some(HljsTheme::SolarizedDark)
        } else if crate::text::str_eq(s, "solarized-light") {
            Some(HljsTheme::SolarizedLight)
        } else if crate::text::str_eq(s, "srcery") {
            Some(HljsTheme::Srcery)
        } else if crate::text::str_eq(s, "stackoverflow-dark") {
            Some(HljsTheme::StackoverflowDark)
        } else if crate::text::str_eq(s, "stackoverflow-light") {
            Some(HljsTheme::StackoverflowLight)
        } else if crate::text::str_eq(s, "sunburst") {
            Some(HljsTheme::Sunburst)
        } else if crate::text::str_eq(s, "tokio-night-dark") {
            Some(HljsTheme::TokioNightDark)
        } else if crate::text::str_eq(s, "tokio-night-light") {
            Some(HljsTheme::TokioNightLight)
        } else if crate::text::str_eq(s, "tomorrow") {
            Some(HljsTheme::Tomorrow)
        } else if crate::text::str_eq(s, "tomorrow-night") {
            Some(HljsTheme::TomorrowNight)
        } else if crate::text::str_eq(s, "tomorrow-night-blue") {
            Some(HljsTheme::TomorrowNightBlue)
        } else if crate::text::str_eq(s, "tomorrow-night-bright") {
            Some(HljsTheme::TomorrowNightBright)
        } else if crate::text::str_eq(s, "vs") {
            Some(HljsTheme::Vs)
        } else if crate::text::str_eq(s, "vs2015") {
            Some(HljsTheme::Vs2015)
        } else if crate::text::str_eq(s, "xcode") {
            Some(HljsTheme::Xcode)
        } else if crate::text::str_eq(s, "xt256") {
            Some(HljsTheme::Xt256)
        } else if crate::text::str_eq(s, "zenburn") {
            Some(HljsTheme::Zenburn)
        } else {
            None
        }
    }

    /// The catalog's own default theme.
    pub fn default_theme() -> (r: HljsTheme)
        ensures
            r == HljsTheme::Default,
    {
        HljsTheme::Default
    }

    /// Stylesheet path for a theme named in canonical form.
    pub open spec fn spec_to_url(theme: Seq<char>) -> Seq<char> {
        "/hljs/css/"@ + theme + ".min.css"@
    }

    /// Builds the stylesheet path for a theme named in canonical form.
    pub fn to_url(theme: &str) -> (r: String)
        ensures
            r@ == HljsTheme::spec_to_url(theme@),
    {
        String::from_str("/hljs/css/").concat(theme).concat(".min.css")
    }
}

} // verus!
