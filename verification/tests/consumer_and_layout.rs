use slopdev::launcher::Screen;
use slopdev::layout::{
    Bundle, ConfigFile, CONFIG_DIR, CONTENT_TREE, DEPENDENCY_TREE, ENTRY_POINT, MARKER_FILE,
    REMOTE_MARKER_URL,
};
use slopdev::stage::Stage;
use slopdev::tracker::StageTracker;
use slopdev::SlopDev;

fn tracker_at(stage: Stage, transferred: u64, total: Option<u64>) -> StageTracker {
    let mut t = StageTracker::new();
    if stage != Stage::Bootstrapping {
        assert!(t.set_stage(stage));
    }
    assert!(t.update_progress(transferred, total));
    t
}

#[test]
fn new_consumer_has_launched_nothing() {
    let dev = SlopDev::new();
    assert!(!dev.is_running());
    assert_eq!(dev.tracker().get_stage(), Stage::Bootstrapping);
    assert_eq!(dev.tracker().progress().bytes_transferred(), 0);
}

#[test]
fn update_shows_progress_while_under_way() {
    let mut dev = SlopDev::new();
    let screen = dev.update(tracker_at(Stage::Bootstrapping, 0, None));
    assert_eq!(screen, Screen::Progress { stage: Stage::Bootstrapping, percent: None });
    let screen = dev.update(tracker_at(Stage::CheckingUpdate, 10, Some(10)));
    assert_eq!(screen, Screen::Progress { stage: Stage::CheckingUpdate, percent: Some(100) });
    let screen = dev.update(tracker_at(Stage::Downloading, 250_000, Some(1_000_000)));
    assert_eq!(screen, Screen::Progress { stage: Stage::Downloading, percent: Some(25) });
    let screen = dev.update(tracker_at(Stage::Extracting, 1_000_000, Some(1_000_000)));
    assert_eq!(screen, Screen::Progress { stage: Stage::Extracting, percent: Some(100) });
    assert_eq!(dev.tracker().get_stage(), Stage::Extracting);
    assert_eq!(dev.tracker().progress().bytes_transferred(), 1_000_000);
}

#[test]
fn update_offers_the_launch_when_ready() {
    let mut dev = SlopDev::new();
    assert_eq!(dev.update(tracker_at(Stage::Ready, 5, Some(5))), Screen::Launch);
    assert!(!dev.is_running());
}

#[test]
fn update_shows_a_failure_distinctly() {
    let mut dev = SlopDev::new();
    assert_eq!(dev.update(tracker_at(Stage::Failed, 5, Some(50))), Screen::Failed);
}

#[test]
fn start_game_waits_for_ready() {
    let mut dev = SlopDev::new();
    assert_eq!(dev.start_game(), None);
    assert!(!dev.is_running());
    for stage in [Stage::CheckingUpdate, Stage::Downloading, Stage::Extracting, Stage::Failed] {
        dev.update(tracker_at(stage, 0, None));
        assert_eq!(dev.start_game(), None);
        assert!(!dev.is_running());
    }
}

#[test]
fn start_game_launches_once() {
    let mut dev = SlopDev::new();
    dev.update(tracker_at(Stage::Ready, 0, None));
    assert_eq!(dev.start_game(), Some("BepInEx/BepInEx/core/BepInEx.Preloader.dll"));
    assert!(dev.is_running());
    assert_eq!(dev.tracker().get_stage(), Stage::Ready);
    assert_eq!(dev.start_game(), None);
    assert!(dev.is_running());
    assert_eq!(dev.update(tracker_at(Stage::Ready, 0, None)), Screen::Started);
    assert_eq!(dev.update(tracker_at(Stage::Downloading, 1, Some(2))), Screen::Started);
}

#[test]
fn work_directory_layout() {
    assert_eq!(DEPENDENCY_TREE, "BepInEx");
    assert_eq!(CONTENT_TREE, "BepInEx/BepInEx/plugins/SlopCrew");
    assert_eq!(CONFIG_DIR, "BepInEx/BepInEx/config");
    assert_eq!(MARKER_FILE, "update.txt");
    assert_eq!(ENTRY_POINT, "BepInEx/BepInEx/core/BepInEx.Preloader.dll");
    assert_eq!(REMOTE_MARKER_URL, "https://sloppers.club/dev/update.txt");
}

#[test]
fn jobs_of_the_two_bundles() {
    let dependency = Bundle::Dependency.job();
    assert_eq!(
        dependency.source_url,
        "https://github.com/BepInEx/BepInEx/releases/download/v5.4.22/BepInEx_x64_5.4.22.0.zip"
    );
    assert_eq!(dependency.destination_path, "BepInEx.zip");
    assert_eq!(Bundle::Dependency.tree(), "BepInEx");
    let content = Bundle::Content.job();
    assert_eq!(content.source_url, "https://sloppers.club/dev/SlopCrew.zip");
    assert_eq!(content.destination_path, "SlopCrew.zip");
    assert_eq!(Bundle::Content.tree(), "BepInEx/BepInEx/plugins/SlopCrew");
}

#[test]
fn generated_configuration_files() {
    assert_eq!(ConfigFile::Plugin.path(), "BepInEx/BepInEx/config/SlopCrew.Plugin.cfg");
    assert_eq!(
        ConfigFile::Plugin.contents(),
        "[Server]\nHost = lmaobox.n2.pm\nPort = 42069\n"
    );
    assert_eq!(ConfigFile::Loader.path(), "BepInEx/BepInEx/config/BepInEx.cfg");
    assert_eq!(ConfigFile::Loader.contents(), "[Logging.Console]\nEnabled = true\n");
    for file in [ConfigFile::Plugin, ConfigFile::Loader] {
        assert!(file.path().starts_with(CONFIG_DIR));
        let mut lines = file.contents().lines();
        let header = lines.next().unwrap();
        assert!(header.starts_with('[') && header.ends_with(']'));
        for line in lines {
            assert!(line.contains(" = "));
        }
    }
}
