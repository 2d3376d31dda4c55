use gpg_tui::app::selection::Selection;
use gpg_tui::app::style::Style;
use gpg_tui::args::Args;
use gpg_tui::config::{Config, GeneralConfig, GpgConfig as GpgSection};
use gpg_tui::gpg::config::{EngineInfo, GpgConfig};
use gpg_tui::gpg::key::KeyDetail;
use gpg_tui::widget::style::TuiColor;
use gpg_tui::GPGME_REQUIRED_VERSION;

fn general() -> GeneralConfig {
    GeneralConfig {
        splash: None,
        tick_rate: None,
        color: None,
        style: None,
        file_explorer: None,
        detail_level: None,
        key_bindings: None,
        log_file: None,
    }
}

fn gpg() -> GpgSection {
    GpgSection { armor: None, homedir: None, outdir: None, outfile: None, default_key: None }
}

#[test]
fn test_parse_config() {
    let mut config = Config { general: Some(general()), gpg: Some(gpg()) };
    if let Some(ref mut gpg) = config.gpg {
        gpg.default_key = Some(String::from("test_key"));
    }
    let args = config.update_args(Args::default());
    assert_eq!(Some(String::from("test_key")), args.default_key);
}

#[test]
fn test_args_partial_config_general() {
    let mut section = general();
    section.splash = Some(true);
    let config = Config { general: Some(section), gpg: None };
    let args = config.update_args(Args::default());
    // [general]
    assert_eq!(args.splash, true); // supplied
    assert_eq!(args.tick_rate, 250_u64);
    // [gpg]
    assert_eq!(args.armor, false);
    assert_eq!(args.default_key, None);
}

#[test]
fn test_args_partial_config_gpg() {
    let mut section = gpg();
    section.armor = Some(true);
    let config = Config { general: None, gpg: Some(section) };
    let args = config.update_args(Args::default());
    // [general]
    assert_eq!(args.splash, false);
    assert_eq!(args.tick_rate, 250_u64);
    // [gpg]
    assert_eq!(args.armor, true); // supplied
    assert_eq!(args.default_key, None);
}

#[test]
fn test_update_args() {
    let mut args = Args::default();
    args.armor = true;
    args.splash = true;
    args.homedir = Some(String::from("/h"));
    args.outfile = String::from("out");
    args.default_key = Some(String::from("K"));
    args.tick_rate = 9;
    args.style = Style::Colored;
    args.file_explorer = String::from("nnn");
    args.detail_level = KeyDetail::Full;
    args.log_file = Some(String::from("log"));
    args.select = Some(Selection::Key);
    args.config = Some(String::from("c.toml"));
    let updated = Config::default().update_args(args.clone());
    assert!(!updated.armor && !updated.splash);
    assert_eq!(Some(String::from("~/.gnupg")), updated.homedir);
    assert_eq!(Some(String::from("~/.gnupg")), updated.outdir);
    assert_eq!("out", updated.outfile);
    assert_eq!(Some(String::from("K")), updated.default_key);
    assert_eq!(250, updated.tick_rate);
    assert_eq!(TuiColor::Gray, updated.color.get());
    assert_eq!(Style::Plain, updated.style);
    assert_eq!("xplr", updated.file_explorer);
    assert_eq!(KeyDetail::Full, updated.detail_level);
    assert_eq!(Some(String::from("log")), updated.log_file);
    assert_eq!(Some(Selection::Key), updated.select);
    assert_eq!(Some(String::from("c.toml")), updated.config);

    let config = Config {
        general: Some(GeneralConfig {
            splash: None,
            tick_rate: Some(100),
            color: Some(String::from("FF00FF")),
            style: Some(String::from("COLORED")),
            file_explorer: Some(String::from("lf")),
            detail_level: None,
            key_bindings: None,
            log_file: None,
        }),
        gpg: Some(GpgSection {
            armor: None,
            homedir: None,
            outdir: Some(String::from("/o")),
            outfile: Some(String::from("{type}")),
            default_key: None,
        }),
    };
    let updated = config.update_args(args);
    assert!(!updated.armor && !updated.splash);
    assert_eq!(None, updated.homedir);
    assert_eq!(Some(String::from("/o")), updated.outdir);
    assert_eq!("{type}", updated.outfile);
    assert_eq!(Some(String::from("K")), updated.default_key);
    assert_eq!(100, updated.tick_rate);
    assert_eq!(TuiColor::Rgb(255, 0, 255), updated.color.get());
    assert_eq!(Style::Colored, updated.style);
    assert_eq!("lf", updated.file_explorer);
    assert_eq!(KeyDetail::Minimum, updated.detail_level);
    assert_eq!(Some(String::from("log")), updated.log_file);
    let mut section = general();
    section.style = Some(String::from("fancy"));
    section.color = Some(String::from("fancy"));
    section.log_file = Some(String::from("other"));
    section.detail_level = Some(KeyDetail::Standard);
    let updated = Config { general: Some(section), gpg: None }.update_args(Args::default());
    assert_eq!(Style::Plain, updated.style);
    assert_eq!(TuiColor::Gray, updated.color.get());
    assert_eq!(Some(String::from("other")), updated.log_file);
    assert_eq!(KeyDetail::Standard, updated.detail_level);
}

#[test]
fn test_gpg_settings() {
    let mut args = Args::default();
    let config = GpgConfig::new(&args, "/home/u/.gnupg");
    assert!(!config.armor);
    assert_eq!(None, config.default_key);
    assert_eq!("/home/u/.gnupg", config.home_dir);
    assert_eq!("/home/u/.gnupg/out", config.output_dir);
    args.armor = true;
    args.homedir = Some(String::from("/keys/"));
    args.default_key = Some(String::from("0xAB"));
    let config = GpgConfig::new(&args, "/home/u/.gnupg");
    assert!(config.armor);
    assert_eq!("/keys/", config.home_dir);
    assert_eq!("/keys/out", config.output_dir);
    args.outdir = Some(String::from("/tmp"));
    let config = GpgConfig::new(&args, "");
    assert_eq!("/tmp", config.output_dir);
    let copy = config.clone();
    assert_eq!(Some(String::from("0xAB")), copy.default_key);
    let engine = EngineInfo {
        library_version: String::from("1.18.0"),
        protocol: String::from("OpenPGP"),
        path: Some(String::from("/usr/bin/gpg")),
        version: Some(String::from("2.4.0")),
        required_version: None,
        data_dir: None,
    };
    assert_eq!(
        "\n\t\t\t\tGPGME version: 1.18.0\
         \n\t\t\t\tGPGME protocol: OpenPGP\
         \n\t\t\t\tGPGME engine: \"/usr/bin/gpg\"\
         \n\t\t\t\tGPGME engine version: 2.4.0 (>?)\
         \n\t\t\t\tGnuPG home directory: \"/keys/\"\
         \n\t\t\t\tGnuPG data directory: \"?\"\
         \n\t\t\t\tOutput directory: \"/tmp\"\
         \n\t\t\t\tDefault signing key: 0xAB\
         \n\t\t\t\t",
        config.get_info(&engine)
    );
    assert_eq!("1.7.0", GPGME_REQUIRED_VERSION);
}
