//! Categories of the menu specification that a component can be assigned to.
use vstd::prelude::*;
use crate::element::Element;
use crate::enums::kinds::VariantNotFound;
use crate::error::{ParseError, ParseErrorView};
use crate::text::str_eq;
use crate::walk::FromElement;
use crate::model::lemma_same_text;

verus! {

/// Specifies a number of defined categories a component can be assigned to.
#[derive(Clone, Debug, PartialEq)]
#[non_exhaustive]
pub enum Category {
    /// Application for presenting, creating, or processing multimedia (audio/video).
    AudioVideo,
    /// An audio application.
    Audio,
    /// A video application.
    Video,
    /// An application for development.
    Development,
    /// Educational software.
    Education,
    /// A game.
    Game,
    /// Application for viewing, creating, or processing graphics.
    Graphics,
    /// Network application such as a web browser.
    Network,
    /// An office type application.
    Office,
    /// Scientific software.
    Science,
    /// Settings applications.
    Settings,
    /// System application, "System Tools" such as say a log viewer or network monitor.
    System,
    /// Small utility application, "Accessories".
    Utility,
    /// A tool to build applications.
    Building,
    /// A tool to debug applications.
    Debugger,
    /// IDE application.
    IDE,
    /// A GUI designer application.
    GUIDesigner,
    /// A profiling tool.
    Profiling,
    /// Applications like cvs or subversion.
    RevisionControl,
    /// A translation tool.
    Translation,
    /// Calendar application.
    Calendar,
    /// E.g. an address book.
    ContactManagement,
    /// Application to manage a database.
    Database,
    /// A dictionary.
    Dictionary,
    /// Chart application.
    Chart,
    /// Email application.
    Email,
    /// Application to manage your finance.
    Finance,
    /// A flowchart application.
    FlowChart,
    /// Tool to manage your PDA.
    PDA,
    /// Project management application.
    ProjectManagement,
    /// Presentation software.
    Presentation,
    /// A spreadsheet.
    Spreadsheet,
    /// A word processor.
    WordProcessor,
    /// 2D based graphical application.
    TwoDGraphics,
    /// Application for viewing, creating, or processing vector graphics.
    VectorGraphics,
    /// Application for viewing, creating, or processing raster (bitmap) graphics.
    RasterGraphics,
    /// Application for viewing, creating, or processing 3-D graphics.
    ThreeDGraphics,
    /// Tool to scan a file/text.
    Scanning,
    /// Optical character recognition application.
    OCR,
    /// Camera tools, etc.
    Photography,
    /// Desktop Publishing applications and Color Management tools.
    Publishing,
    /// Tool to view e.g. a graphic or pdf file.
    Viewer,
    /// A text tool utility.
    TextTools,
    /// Configuration tool for the GUI.
    DesktopSettings,
    /// A tool to manage hardware components, like sound cards, video cards or printers.
    HardwareSettings,
    /// A tool to manage printers.
    Printing,
    /// A package manager application.
    PackageManager,
    /// A dial-up program.
    Dialup,
    /// An instant messaging client.
    InstantMessaging,
    /// A chat client
    Chat,
    /// An IRC client.
    IRCClient,
    /// RSS, podcast and other subscription based contents.
    Feed,
    /// Tools like FTP or P2P programs.
    FileTransfer,
    /// HAM radio software.
    HamRadio,
    /// A news reader or a news ticker.
    News,
    /// A P2P program.
    P2P,
    /// A tool to remotely manage your PC.
    RemoteAccess,
    /// Telephony via PC.
    Telephony,
    /// Telephony tools, to dial a number, manage PBX, ...
    TelephonyTools,
    /// Video Conference software.
    VideoConference,
    /// A web browser.
    WebBrowser,
    /// A tool for web developers
    WebDevelopment,
    /// An app related to MIDI.
    Midi,
    /// Just a mixer.
    Mixer,
    /// A sequencer.
    Sequencer,
    /// A tuner.
    Tuner,
    /// A TV application.
    TV,
    /// Application to edit audio/video files.
    AudioVideoEditing,
    /// Application to play audio/video files.
    Player,
    /// Application to record audio/video files.
    Recorder,
    /// Application to burn a disc.
    DiscBurning,
    /// An action game.
    ActionGame,
    /// Adventure style game.
    AdventureGame,
    /// Arcade style game.
    ArcadeGame,
    /// A board game.
    BoardGame,
    /// Falling blocks game.
    BlocksGame,
    /// A card game.
    CardGame,
    /// A game for kids.
    KidsGame,
    /// Logic games like puzzles, etc.
    LogicGame,
    /// A role playing game.
    RolePlaying,
    /// A shooter game.
    Shooter,
    /// A simulation game.
    Simulation,
    /// A sports game.
    SportsGame,
    /// A strategy game.
    StrategyGame,
    /// Software to teach arts.
    Art,
    /// Software for construction.
    Construction,
    /// Musical software.
    Music,
    /// Software to learn foreign languages.
    Languages,
    /// Artificial Intelligence software.
    ArtificialIntelligence,
    /// Astronomy software.
    Astronomy,
    /// Biology software.
    Biology,
    /// Chemistry software.
    Chemistry,
    /// Computer sience software.
    ComputerScience,
    /// Data visualization software.
    DataVisualization,
    /// Economy software.
    Economy,
    /// Electricity software.
    Electricity,
    /// Geography software.
    Geography,
    /// Geology software.
    Geology,
    /// Geoscience software, GIS.
    Geoscience,
    /// History software.
    History,
    /// Software for philosophy, psychology and other humanities.
    Humanities,
    /// Image Processing software.
    ImageProcessing,
    /// Literature software.
    Literature,
    /// Software for viewing maps, navigation, mapping, GPS.
    Maps,
    /// Math software.
    Math,
    /// Numerical analysis software.
    NumericalAnalysis,
    /// Medical software.
    MedicalSoftware,
    /// Physics software.
    Physics,
    /// Robotics software.
    Robotics,
    /// Religious and spiritual software, theology.
    Spirituality,
    /// Sports software.
    Sports,
    /// Parallel computing software.
    ParallelComputing,
    /// A simple amusement.
    Amusement,
    /// A tool to archive/backup data.
    Archiving,
    /// A tool to manage compressed data/archives.
    Compression,
    /// Electronics software, e.g. a circuit designer.
    Electronics,
    /// Emulator of another platform, such as a DOS emulator.
    Emulator,
    /// Engineering software, e.g. CAD programs.
    Engineering,
    /// A file tool utility.
    FileTools,
    /// A file manager.
    FileManager,
    /// A terminal emulator application.
    TerminalEmulator,
    /// A file system tool.
    Filesystem,
    /// Monitor application/applet that monitors some resource or activity.
    Monitor,
    /// A security tool.
    Security,
    /// Accessibility.
    Accessibility,
    /// A calculator.
    Calculator,
    /// A clock application/applet.
    Clock,
    /// A text editor.
    TextEditor,
    /// Help or documentation.
    Documentation,
    /// Application handles adult or explicit material.
    Adult,
    /// Important application, core to the desktop such as a file manager or a help browser.
    Core,
    /// Application based on KDE libraries.
    KDE,
    /// Application based on GNOME libraries.
    GNOME,
    /// Application based on XFCE libraries.
    XFCE,
    /// Application based on GTK+ libraries.
    GTK,
    /// Application based on Qt libraries.
    Qt,
    /// Application based on Motif libraries.
    Motif,
    /// Application based on Java GUI libraries, such as AWT or Swing.
    Java,
    /// Application that only works inside a terminal (text-based or command line application).
    ConsoleOnly,
    /// A screen saver.
    Screensaver,
    /// An application that is primarily an icon for the "system tray" or "notification area".
    TrayIcon,
    /// An applet that will run inside a panel or another such application, likely desktop specific.
    Applet,
    /// A shell (an actual specific shell such as bash or tcsh, not a TerminalEmulator).
    Shell,
    /// A category that is not registered, under the name as it stands.
    Unknown(String),
}

/// A [`Category`] as contracts see it: a registered category, or the name of
/// one that is not registered.
pub enum CategoryView {
    Known(Category),
    Unknown(Seq<char>),
}

impl View for Category {
    type V = CategoryView;

    open spec fn view(&self) -> CategoryView {
        match *self {
            Category::Unknown(name) => CategoryView::Unknown(name@),
            known => CategoryView::Known(known),
        }
    }
}

/// The one of the main categories that is written as `s`.
pub open spec fn main_category(s: Seq<char>) -> Option<Category> {
    if s == "AudioVideo"@ {
        Some(Category::AudioVideo)
    } else if s == "Audio"@ {
        Some(Category::Audio)
    } else if s == "Video"@ {
        Some(Category::Video)
    } else if s == "Development"@ {
        Some(Category::Development)
    } else if s == "Education"@ {
        Some(Category::Education)
    } else if s == "Game"@ {
        Some(Category::Game)
    } else if s == "Graphics"@ {
        Some(Category::Graphics)
    } else if s == "Network"@ {
        Some(Category::Network)
    } else if s == "Office"@ {
        Some(Category::Office)
    } else if s == "Science"@ {
        Some(Category::Science)
    } else if s == "Settings"@ {
        Some(Category::Settings)
    } else if s == "System"@ {
        Some(Category::System)
    } else if s == "Utility"@ {
        Some(Category::Utility)
    } else {
        None
    }
}

/// The one of the main categories that is written as `s`.
pub fn read_main_category(s: &str) -> (r: Option<Category>)
    ensures
        r == main_category(s@),
{
    if str_eq(s, "AudioVideo") {
        Some(Category::AudioVideo)
    } else if str_eq(s, "Audio") {
        Some(Category::Audio)
    } else if str_eq(s, "Video") {
        Some(Category::Video)
    } else if str_eq(s, "Development") {
        Some(Category::Development)
    } else if str_eq(s, "Education") {
        Some(Category::Education)
    } else if str_eq(s, "Game") {
        Some(Category::Game)
    } else if str_eq(s, "Graphics") {
        Some(Category::Graphics)
    } else if str_eq(s, "Network") {
        Some(Category::Network)
    } else if str_eq(s, "Office") {
        Some(Category::Office)
    } else if str_eq(s, "Science") {
        Some(Category::Science)
    } else if str_eq(s, "Settings") {
        Some(Category::Settings)
    } else if str_eq(s, "System") {
        Some(Category::System)
    } else if str_eq(s, "Utility") {
        Some(Category::Utility)
    } else {
        None
    }
}

/// The one of the additional categories from `Building` to `Publishing` that is written as `s`.
pub open spec fn office_category(s: Seq<char>) -> Option<Category> {
    if s == "Building"@ {
        Some(Category::Building)
    } else if s == "Debugger"@ {
        Some(Category::Debugger)
    } else if s == "Ide"@ {
        Some(Category::IDE)
    } else if s == "GuiDesigner"@ {
        Some(Category::GUIDesigner)
    } else if s == "Profiling"@ {
        Some(Category::Profiling)
    } else if s == "RevisionControl"@ {
        Some(Category::RevisionControl)
    } else if s == "Translation"@ {
        Some(Category::Translation)
    } else if s == "Calendar"@ {
        Some(Category::Calendar)
    } else if s == "ContactManagement"@ {
        Some(Category::ContactManagement)
    } else if s == "Database"@ {
        Some(Category::Database)
    } else if s == "Dictionary"@ {
        Some(Category::Dictionary)
    } else if s == "Chart"@ {
        Some(Category::Chart)
    } else if s == "Email"@ {
        Some(Category::Email)
    } else if s == "Finance"@ {
        Some(Category::Finance)
    } else if s == "FlowChart"@ {
        Some(Category::FlowChart)
    } else if s == "Pda"@ {
        Some(Category::PDA)
    } else if s == "ProjectManagement"@ {
        Some(Category::ProjectManagement)
    } else if s == "Presentation"@ {
        Some(Category::Presentation)
    } else if s == "Spreadsheet"@ {
        Some(Category::Spreadsheet)
    } else if s == "WordProcessor"@ {
        Some(Category::WordProcessor)
    } else if s == "TwoDGraphics"@ {
        Some(Category::TwoDGraphics)
    } else if s == "VectorGraphics"@ {
        Some(Category::VectorGraphics)
    } else if s == "RasterGraphics"@ {
        Some(Category::RasterGraphics)
    } else if s == "ThreeDGraphics"@ {
        Some(Category::ThreeDGraphics)
    } else if s == "Scanning"@ {
        Some(Category::Scanning)
    } else if s == "Ocr"@ {
        Some(Category::OCR)
    } else if s == "Photography"@ {
        Some(Category::Photography)
    } else if s == "Publishing"@ {
        Some(Category::Publishing)
    } else {
        None
    }
}

/// The one of the additional categories from `Building` to `Publishing` that is written as `s`.
pub fn read_office_category(s: &str) -> (r: Option<Category>)
    ensures
        r == office_category(s@),
{
    if str_eq(s, "Building") {
        Some(Category::Building)
    } else if str_eq(s, "Debugger") {
        Some(Category::Debugger)
    } else if str_eq(s, "Ide") {
        Some(Category::IDE)
    } else if str_eq(s, "GuiDesigner") {
        Some(Category::GUIDesigner)
    } else if str_eq(s, "Profiling") {
        Some(Category::Profiling)
    } else if str_eq(s, "RevisionControl") {
        Some(Category::RevisionControl)
    } else if str_eq(s, "Translation") {
        Some(Category::Translation)
    } else if str_eq(s, "Calendar") {
        Some(Category::Calendar)
    } else if str_eq(s, "ContactManagement") {
        Some(Category::ContactManagement)
    } else if str_eq(s, "Database") {
        Some(Category::Database)
    } else if str_eq(s, "Dictionary") {
        Some(Category::Dictionary)
    } else if str_eq(s, "Chart") {
        Some(Category::Chart)
    } else if str_eq(s, "Email") {
        Some(Category::Email)
    } else if str_eq(s, "Finance") {
        Some(Category::Finance)
    } else if str_eq(s, "FlowChart") {
        Some(Category::FlowChart)
    } else if str_eq(s, "Pda") {
        Some(Category::PDA)
    } else if str_eq(s, "ProjectManagement") {
        Some(Category::ProjectManagement)
    } else if str_eq(s, "Presentation") {
        Some(Category::Presentation)
    } else if str_eq(s, "Spreadsheet") {
        Some(Category::Spreadsheet)
    } else if str_eq(s, "WordProcessor") {
        Some(Category::WordProcessor)
    } else if str_eq(s, "TwoDGraphics") {
        Some(Category::TwoDGraphics)
    } else if str_eq(s, "VectorGraphics") {
        Some(Category::VectorGraphics)
    } else if str_eq(s, "RasterGraphics") {
        Some(Category::RasterGraphics)
    } else if str_eq(s, "ThreeDGraphics") {
        Some(Category::ThreeDGraphics)
    } else if str_eq(s, "Scanning") {
        Some(Category::Scanning)
    } else if str_eq(s, "Ocr") {
        Some(Category::OCR)
    } else if str_eq(s, "Photography") {
        Some(Category::Photography)
    } else if str_eq(s, "Publishing") {
        Some(Category::Publishing)
    } else {
        None
    }
}

/// The one of the additional categories from `Viewer` to `Player` that is written as `s`.
pub open spec fn network_category(s: Seq<char>) -> Option<Category> {
    if s == "Viewer"@ {
        Some(Category::Viewer)
    } else if s == "TextTools"@ {
        Some(Category::TextTools)
    } else if s == "DesktopSettings"@ {
        Some(Category::DesktopSettings)
    } else if s == "HardwareSettings"@ {
        Some(Category::HardwareSettings)
    } else if s == "Printing"@ {
        Some(Category::Printing)
    } else if s == "PackageManager"@ {
        Some(Category::PackageManager)
    } else if s == "Dialup"@ {
        Some(Category::Dialup)
    } else if s == "InstantMessaging"@ {
        Some(Category::InstantMessaging)
    } else if s == "Chat"@ {
        Some(Category::Chat)
    } else if s == "IrcClient"@ {
        Some(Category::IRCClient)
    } else if s == "Feed"@ {
        Some(Category::Feed)
    } else if s == "FileTransfer"@ {
        Some(Category::FileTransfer)
    } else if s == "HamRadio"@ {
        Some(Category::HamRadio)
    } else if s == "News"@ {
        Some(Category::News)
    } else if s == "P2p"@ {
        Some(Category::P2P)
    } else if s == "RemoteAccess"@ {
        Some(Category::RemoteAccess)
    } else if s == "Telephony"@ {
        Some(Category::Telephony)
    } else if s == "TelephonyTools"@ {
        Some(Category::TelephonyTools)
    } else if s == "VideoConference"@ {
        Some(Category::VideoConference)
    } else if s == "WebBrowser"@ {
        Some(Category::WebBrowser)
    } else if s == "WebDevelopment"@ {
        Some(Category::WebDevelopment)
    } else if s == "Midi"@ {
        Some(Category::Midi)
    } else if s == "Mixer"@ {
        Some(Category::Mixer)
    } else if s == "Sequencer"@ {
        Some(Category::Sequencer)
    } else if s == "Tuner"@ {
        Some(Category::Tuner)
    } else if s == "Tv"@ {
        Some(Category::TV)
    } else if s == "AudioVideoEditing"@ {
        Some(Category::AudioVideoEditing)
    } else if s == "Player"@ {
        Some(Category::Player)
    } else {
        None
    }
}

/// The one of the additional categories from `Viewer` to `Player` that is written as `s`.
pub fn read_network_category(s: &str) -> (r: Option<Category>)
    ensures
        r == network_category(s@),
{
    if str_eq(s, "Viewer") {
        Some(Category::Viewer)
    } else if str_eq(s, "TextTools") {
        Some(Category::TextTools)
    } else if str_eq(s, "DesktopSettings") {
        Some(Category::DesktopSettings)
    } else if str_eq(s, "HardwareSettings") {
        Some(Category::HardwareSettings)
    } else if str_eq(s, "Printing") {
        Some(Category::Printing)
    } else if str_eq(s, "PackageManager") {
        Some(Category::PackageManager)
    } else if str_eq(s, "Dialup") {
        Some(Category::Dialup)
    } else if str_eq(s, "InstantMessaging") {
        Some(Category::InstantMessaging)
    } else if str_eq(s, "Chat") {
        Some(Category::Chat)
    } else if str_eq(s, "IrcClient") {
        Some(Category::IRCClient)
    } else if str_eq(s, "Feed") {
        Some(Category::Feed)
    } else if str_eq(s, "FileTransfer") {
        Some(Category::FileTransfer)
    } else if str_eq(s, "HamRadio") {
        Some(Category::HamRadio)
    } else if str_eq(s, "News") {
        Some(Category::News)
    } else if str_eq(s, "P2p") {
        Some(Category::P2P)
    } else if str_eq(s, "RemoteAccess") {
        Some(Category::RemoteAccess)
    } else if str_eq(s, "Telephony") {
        Some(Category::Telephony)
    } else if str_eq(s, "TelephonyTools") {
        Some(Category::TelephonyTools)
    } else if str_eq(s, "VideoConference") {
        Some(Category::VideoConference)
    } else if str_eq(s, "WebBrowser") {
        Some(Category::WebBrowser)
    } else if str_eq(s, "WebDevelopment") {
        Some(Category::WebDevelopment)
    } else if str_eq(s, "Midi") {
        Some(Category::Midi)
    } else if str_eq(s, "Mixer") {
        Some(Category::Mixer)
    } else if str_eq(s, "Sequencer") {
        Some(Category::Sequencer)
    } else if str_eq(s, "Tuner") {
        Some(Category::Tuner)
    } else if str_eq(s, "Tv") {
        Some(Category::TV)
    } else if str_eq(s, "AudioVideoEditing") {
        Some(Category::AudioVideoEditing)
    } else if str_eq(s, "Player") {
        Some(Category::Player)
    } else {
        None
    }
}

/// The one of the additional categories from `Recorder` to `Geography` that is written as `s`.
pub open spec fn game_category(s: Seq<char>) -> Option<Category> {
    if s == "Recorder"@ {
        Some(Category::Recorder)
    } else if s == "DiscBurning"@ {
        Some(Category::DiscBurning)
    } else if s == "ActionGame"@ {
        Some(Category::ActionGame)
    } else if s == "AdventureGame"@ {
        Some(Category::AdventureGame)
    } else if s == "ArcadeGame"@ {
        Some(Category::ArcadeGame)
    } else if s == "BoardGame"@ {
        Some(Category::BoardGame)
    } else if s == "BlocksGame"@ {
        Some(Category::BlocksGame)
    } else if s == "CardGame"@ {
        Some(Category::CardGame)
    } else if s == "KidsGame"@ {
        Some(Category::KidsGame)
    } else if s == "LogicGame"@ {
        Some(Category::LogicGame)
    } else if s == "RolePlaying"@ {
        Some(Category::RolePlaying)
    } else if s == "Shooter"@ {
        Some(Category::Shooter)
    } else if s == "Simulation"@ {
        Some(Category::Simulation)
    } else if s == "SportsGame"@ {
        Some(Category::SportsGame)
    } else if s == "StrategyGame"@ {
        Some(Category::StrategyGame)
    } else if s == "Art"@ {
        Some(Category::Art)
    } else if s == "Construction"@ {
        Some(Category::Construction)
    } else if s == "Music"@ {
        Some(Category::Music)
    } else if s == "Languages"@ {
        Some(Category::Languages)
    } else if s == "ArtificialIntelligence"@ {
        Some(Category::ArtificialIntelligence)
    } else if s == "Astronomy"@ {
        Some(Category::Astronomy)
    } else if s == "Biology"@ {
        Some(Category::Biology)
    } else if s == "Chemistry"@ {
        Some(Category::Chemistry)
    } else if s == "ComputerScience"@ {
        Some(Category::ComputerScience)
    } else if s == "DataVisualization"@ {
        Some(Category::DataVisualization)
    } else if s == "Economy"@ {
        Some(Category::Economy)
    } else if s == "Electricity"@ {
        Some(Category::Electricity)
    } else if s == "Geography"@ {
        Some(Category::Geography)
    } else {
        None
    }
}

/// The one of the additional categories from `Recorder` to `Geography` that is written as `s`.
pub fn read_game_category(s: &str) -> (r: Option<Category>)
    ensures
        r == game_category(s@),
{
    if str_eq(s, "Recorder") {
        Some(Category::Recorder)
    } else if str_eq(s, "DiscBurning") {
        Some(Category::DiscBurning)
    } else if str_eq(s, "ActionGame") {
        Some(Category::ActionGame)
    } else if str_eq(s, "AdventureGame") {
        Some(Category::AdventureGame)
    } else if str_eq(s, "ArcadeGame") {
        Some(Category::ArcadeGame)
    } else if str_eq(s, "BoardGame") {
        Some(Category::BoardGame)
    } else if str_eq(s, "BlocksGame") {
        Some(Category::BlocksGame)
    } else if str_eq(s, "CardGame") {
        Some(Category::CardGame)
    } else if str_eq(s, "KidsGame") {
        Some(Category::KidsGame)
    } else if str_eq(s, "LogicGame") {
        Some(Category::LogicGame)
    } else if str_eq(s, "RolePlaying") {
        Some(Category::RolePlaying)
    } else if str_eq(s, "Shooter") {
        Some(Category::Shooter)
    } else if str_eq(s, "Simulation") {
        Some(Category::Simulation)
    } else if str_eq(s, "SportsGame") {
        Some(Category::SportsGame)
    } else if str_eq(s, "StrategyGame") {
        Some(Category::StrategyGame)
    } else if str_eq(s, "Art") {
        Some(Category::Art)
    } else if str_eq(s, "Construction") {
        Some(Category::Construction)
    } else if str_eq(s, "Music") {
        Some(Category::Music)
    } else if str_eq(s, "Languages") {
        Some(Category::Languages)
    } else if str_eq(s, "ArtificialIntelligence") {
        Some(Category::ArtificialIntelligence)
    } else if str_eq(s, "Astronomy") {
        Some(Category::Astronomy)
    } else if str_eq(s, "Biology") {
        Some(Category::Biology)
    } else if str_eq(s, "Chemistry") {
        Some(Category::Chemistry)
    } else if str_eq(s, "ComputerScience") {
        Some(Category::ComputerScience)
    } else if str_eq(s, "DataVisualization") {
        Some(Category::DataVisualization)
    } else if str_eq(s, "Economy") {
        Some(Category::Economy)
    } else if str_eq(s, "Electricity") {
        Some(Category::Electricity)
    } else if str_eq(s, "Geography") {
        Some(Category::Geography)
    } else {
        None
    }
}

/// The one of the additional categories from `Geology` to `Accessibility` that is written as `s`.
pub open spec fn science_category(s: Seq<char>) -> Option<Category> {
    if s == "Geology"@ {
        Some(Category::Geology)
    } else if s == "Geoscience"@ {
        Some(Category::Geoscience)
    } else if s == "History"@ {
        Some(Category::History)
    } else if s == "Humanities"@ {
        Some(Category::Humanities)
    } else if s == "ImageProcessing"@ {
        Some(Category::ImageProcessing)
    } else if s == "Literature"@ {
        Some(Category::Literature)
    } else if s == "Maps"@ {
        Some(Category::Maps)
    } else if s == "Math"@ {
        Some(Category::Math)
    } else if s == "NumericalAnalysis"@ {
        Some(Category::NumericalAnalysis)
    } else if s == "MedicalSoftware"@ {
        Some(Category::MedicalSoftware)
    } else if s == "Physics"@ {
        Some(Category::Physics)
    } else if s == "Robotics"@ {
        Some(Category::Robotics)
    } else if s == "Spirituality"@ {
        Some(Category::Spirituality)
    } else if s == "Sports"@ {
        Some(Category::Sports)
    } else if s == "ParallelComputing"@ {
        Some(Category::ParallelComputing)
    } else if s == "Amusement"@ {
        Some(Category::Amusement)
    } else if s == "Archiving"@ {
        Some(Category::Archiving)
    } else if s == "Compression"@ {
        Some(Category::Compression)
    } else if s == "Electronics"@ {
        Some(Category::Electronics)
    } else if s == "Emulator"@ {
        Some(Category::Emulator)
    } else if s == "Engineering"@ {
        Some(Category::Engineering)
    } else if s == "FileTools"@ {
        Some(Category::FileTools)
    } else if s == "FileManager"@ {
        Some(Category::FileManager)
    } else if s == "TerminalEmulator"@ {
        Some(Category::TerminalEmulator)
    } else if s == "Filesystem"@ {
        Some(Category::Filesystem)
    } else if s == "Monitor"@ {
        Some(Category::Monitor)
    } else if s == "Security"@ {
        Some(Category::Security)
    } else if s == "Accessibility"@ {
        Some(Category::Accessibility)
    } else {
        None
    }
}

/// The one of the additional categories from `Geology` to `Accessibility` that is written as `s`.
pub fn read_science_category(s: &str) -> (r: Option<Category>)
    ensures
        r == science_category(s@),
{
    if str_eq(s, "Geology") {
        Some(Category::Geology)
    } else if str_eq(s, "Geoscience") {
        Some(Category::Geoscience)
    } else if str_eq(s, "History") {
        Some(Category::History)
    } else if str_eq(s, "Humanities") {
        Some(Category::Humanities)
    } else if str_eq(s, "ImageProcessing") {
        Some(Category::ImageProcessing)
    } else if str_eq(s, "Literature") {
        Some(Category::Literature)
    } else if str_eq(s, "Maps") {
        Some(Category::Maps)
    } else if str_eq(s, "Math") {
        Some(Category::Math)
    } else if str_eq(s, "NumericalAnalysis") {
        Some(Category::NumericalAnalysis)
    } else if str_eq(s, "MedicalSoftware") {
        Some(Category::MedicalSoftware)
    } else if str_eq(s, "Physics") {
        Some(Category::Physics)
    } else if str_eq(s, "Robotics") {
        Some(Category::Robotics)
    } else if str_eq(s, "Spirituality") {
        Some(Category::Spirituality)
    } else if str_eq(s, "Sports") {
        Some(Category::Sports)
    } else if str_eq(s, "ParallelComputing") {
        Some(Category::ParallelComputing)
    } else if str_eq(s, "Amusement") {
        Some(Category::Amusement)
    } else if str_eq(s, "Archiving") {
        Some(Category::Archiving)
    } else if str_eq(s, "Compression") {
        Some(Category::Compression)
    } else if str_eq(s, "Electronics") {
        Some(Category::Electronics)
    } else if str_eq(s, "Emulator") {
        Some(Category::Emulator)
    } else if str_eq(s, "Engineering") {
        Some(Category::Engineering)
    } else if str_eq(s, "FileTools") {
        Some(Category::FileTools)
    } else if str_eq(s, "FileManager") {
        Some(Category::FileManager)
    } else if str_eq(s, "TerminalEmulator") {
        Some(Category::TerminalEmulator)
    } else if str_eq(s, "Filesystem") {
        Some(Category::Filesystem)
    } else if str_eq(s, "Monitor") {
        Some(Category::Monitor)
    } else if str_eq(s, "Security") {
        Some(Category::Security)
    } else if str_eq(s, "Accessibility") {
        Some(Category::Accessibility)
    } else {
        None
    }
}

/// The one of the additional categories from `Calculator` to `ConsoleOnly` that is written as `s`.
pub open spec fn utility_category(s: Seq<char>) -> Option<Category> {
    if s == "Calculator"@ {
        Some(Category::Calculator)
    } else if s == "Clock"@ {
        Some(Category::Clock)
    } else if s == "TextEditor"@ {
        Some(Category::TextEditor)
    } else if s == "Documentation"@ {
        Some(Category::Documentation)
    } else if s == "Adult"@ {
        Some(Category::Adult)
    } else if s == "Core"@ {
        Some(Category::Core)
    } else if s == "Kde"@ {
        Some(Category::KDE)
    } else if s == "Gnome"@ {
        Some(Category::GNOME)
    } else if s == "Xfce"@ {
        Some(Category::XFCE)
    } else if s == "Gtk"@ {
        Some(Category::GTK)
    } else if s == "Qt"@ {
        Some(Category::Qt)
    } else if s == "Motif"@ {
        Some(Category::Motif)
    } else if s == "Java"@ {
        Some(Category::Java)
    } else if s == "ConsoleOnly"@ {
        Some(Category::ConsoleOnly)
    } else {
        None
    }
}

/// The one of the additional categories from `Calculator` to `ConsoleOnly` that is written as `s`.
pub fn read_utility_category(s: &str) -> (r: Option<Category>)
    ensures
        r == utility_category(s@),
{
    if str_eq(s, "Calculator") {
        Some(Category::Calculator)
    } else if str_eq(s, "Clock") {
        Some(Category::Clock)
    } else if str_eq(s, "TextEditor") {
        Some(Category::TextEditor)
    } else if str_eq(s, "Documentation") {
        Some(Category::Documentation)
    } else if str_eq(s, "Adult") {
        Some(Category::Adult)
    } else if str_eq(s, "Core") {
        Some(Category::Core)
    } else if str_eq(s, "Kde") {
        Some(Category::KDE)
    } else if str_eq(s, "Gnome") {
        Some(Category::GNOME)
    } else if str_eq(s, "Xfce") {
        Some(Category::XFCE)
    } else if str_eq(s, "Gtk") {
        Some(Category::GTK)
    } else if str_eq(s, "Qt") {
        Some(Category::Qt)
    } else if str_eq(s, "Motif") {
        Some(Category::Motif)
    } else if str_eq(s, "Java") {
        Some(Category::Java)
    } else if str_eq(s, "ConsoleOnly") {
        Some(Category::ConsoleOnly)
    } else {
        None
    }
}

/// The one of the reserved categories that is written as `s`.
pub open spec fn reserved_category(s: Seq<char>) -> Option<Category> {
    if s == "Screensaver"@ {
        Some(Category::Screensaver)
    } else if s == "TrayIcon"@ {
        Some(Category::TrayIcon)
    } else if s == "Applet"@ {
        Some(Category::Applet)
    } else if s == "Shell"@ {
        Some(Category::Shell)
    } else {
        None
    }
}

/// The one of the reserved categories that is written as `s`.
pub fn read_reserved_category(s: &str) -> (r: Option<Category>)
    ensures
        r == reserved_category(s@),
{
    if str_eq(s, "Screensaver") {
        Some(Category::Screensaver)
    } else if str_eq(s, "TrayIcon") {
        Some(Category::TrayIcon)
    } else if str_eq(s, "Applet") {
        Some(Category::Applet)
    } else if str_eq(s, "Shell") {
        Some(Category::Shell)
    } else {
        None
    }
}

/// The registered category that is written as `s`.
pub open spec fn known_category(s: Seq<char>) -> Option<Category> {
    if main_category(s) is Some {
        main_category(s)
    } else if office_category(s) is Some {
        office_category(s)
    } else if network_category(s) is Some {
        network_category(s)
    } else if game_category(s) is Some {
        game_category(s)
    } else if science_category(s) is Some {
        science_category(s)
    } else if utility_category(s) is Some {
        utility_category(s)
    } else {
        reserved_category(s)
    }
}

/// The registered category that is written as `s`.
pub fn read_known_category(s: &str) -> (r: Option<Category>)
    ensures
        r == known_category(s@),
{
    let found = read_main_category(s);
    if found.is_some() {
        return found;
    }
    let found = read_office_category(s);
    if found.is_some() {
        return found;
    }
    let found = read_network_category(s);
    if found.is_some() {
        return found;
    }
    let found = read_game_category(s);
    if found.is_some() {
        return found;
    }
    let found = read_science_category(s);
    if found.is_some() {
        return found;
    }
    let found = read_utility_category(s);
    if found.is_some() {
        return found;
    }
    read_reserved_category(s)
}

impl Category {
    /// The category that is written as `s`: a registered one, or an unknown
    /// one under that name.
    pub open spec fn spec_from_str(s: Seq<char>) -> CategoryView {
        match known_category(s) {
            Some(c) => CategoryView::Known(c),
            None => CategoryView::Unknown(s),
        }
    }

    /// The category that is written as `s`: a registered one, or an unknown
    /// one under that name. Every name gives a category.
    pub fn from_str(s: &str) -> (r: Result<Self, VariantNotFound>)
        ensures
            match r {
                Ok(c) => c@ == Self::spec_from_str(s@),
                Err(_) => false,
            },
    {
        match read_known_category(s) {
            Some(c) => Ok(c),
            None => Ok(Category::Unknown(s.to_owned())),
        }
    }
}

impl FromElement for Category {
    /// The category that an element names by its text, which is required.
    open spec fn spec_from_element(e: Element) -> Result<CategoryView, ParseErrorView> {
        match e.spec_text() {
            None => Err(ParseErrorView::MissingValue("category"@)),
            Some(t) => Ok(Category::spec_from_str(t)),
        }
    }

    fn from_element(e: &Element) -> (r: Result<Self, ParseError>) {
        match e.get_text() {
            None => Err(ParseError::missing_value("category")),
            Some(t) => match Category::from_str(t.as_str()) {
                Ok(v) => Ok(v),
                Err(_) => Err(ParseError::invalid_value(t.as_str(), "$value", "category")),
            },
        }
    }

    proof fn lemma_model_decides(a: Element, b: Element) {
        lemma_same_text(a, b);
    }
}

} // verus!
