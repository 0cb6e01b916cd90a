use block_runtime::errors::{in_block, Error};
use block_runtime::kind::{BlockConfig, BlockKind};

const ALL: [(BlockKind, &str); 41] = [
    (BlockKind::AmdGpu, "amd_gpu"),
    (BlockKind::Apt, "apt"),
    (BlockKind::Backlight, "backlight"),
    (BlockKind::Battery, "battery"),
    (BlockKind::Bluetooth, "bluetooth"),
    (BlockKind::Cpu, "cpu"),
    (BlockKind::Custom, "custom"),
    (BlockKind::CustomDbus, "custom_dbus"),
    (BlockKind::DiskSpace, "disk_space"),
    (BlockKind::Dnf, "dnf"),
    (BlockKind::Docker, "docker"),
    (BlockKind::ExternalIp, "external_ip"),
    (BlockKind::FocusedWindow, "focused_window"),
    (BlockKind::Github, "github"),
    (BlockKind::Hueshift, "hueshift"),
    (BlockKind::Kdeconnect, "kdeconnect"),
    (BlockKind::Load, "load"),
    (BlockKind::Maildir, "maildir"),
    (BlockKind::Menu, "menu"),
    (BlockKind::Memory, "memory"),
    (BlockKind::Music, "music"),
    (BlockKind::Net, "net"),
    (BlockKind::Notify, "notify"),
    (BlockKind::Notmuch, "notmuch"),
    (BlockKind::NvidiaGpu, "nvidia_gpu"),
    (BlockKind::Pacman, "pacman"),
    (BlockKind::Pomodoro, "pomodoro"),
    (BlockKind::Rofication, "rofication"),
    (BlockKind::ServiceStatus, "service_status"),
    (BlockKind::Sound, "sound"),
    (BlockKind::Speedtest, "speedtest"),
    (BlockKind::KeyboardLayout, "keyboard_layout"),
    (BlockKind::Taskwarrior, "taskwarrior"),
    (BlockKind::Temperature, "temperature"),
    (BlockKind::Time, "time"),
    (BlockKind::TeaTimer, "tea_timer"),
    (BlockKind::Toggle, "toggle"),
    (BlockKind::Uptime, "uptime"),
    (BlockKind::Watson, "watson"),
    (BlockKind::Weather, "weather"),
    (BlockKind::Xrandr, "xrandr"),
];

#[test]
fn every_kind_is_named_by_its_tag() {
    for (kind, tag) in ALL.iter() {
        assert_eq!(kind.name(), *tag);
    }
}

#[test]
fn no_two_kinds_share_a_name() {
    for (i, (a, _)) in ALL.iter().enumerate() {
        for (j, (b, _)) in ALL.iter().enumerate() {
            assert_eq!(a.name() == b.name(), i == j);
            assert_eq!(a == b, i == j);
        }
    }
}

#[test]
fn conclude_leaves_success_alone() {
    for (kind, _) in ALL.iter() {
        assert!(kind.conclude(0, Ok(())).is_ok());
    }
}

#[test]
fn conclude_attributes_a_failure_to_kind_and_instance() {
    for (i, (kind, tag)) in ALL.iter().enumerate() {
        let e = kind.conclude(i, Err(Error::new("injected"))).unwrap_err();
        assert_eq!(e.message(), "injected");
        assert_eq!(e.block, Some((*tag, i)));
    }
}

#[test]
fn conclude_replaces_an_earlier_attribution() {
    let inner = Error::new("injected").in_block("net", 1);
    let e = BlockKind::Cpu.conclude(usize::MAX, Err(inner)).unwrap_err();
    assert_eq!(e.message(), "injected");
    assert_eq!(e.block, Some(("cpu", usize::MAX)));
}

#[test]
fn new_error_is_unattributed() {
    let e = Error::new("disk on fire");
    assert_eq!(e.message(), "disk on fire");
    assert_eq!(e.message, "disk on fire");
    assert_eq!(e.block, None);
    assert_eq!(Error::new("").message(), "");
}

#[test]
fn in_block_keeps_message_and_sets_block() {
    let e = Error::new("disk on fire").in_block("disk_space", 12);
    assert_eq!(e.message(), "disk on fire");
    assert_eq!(e.block, Some(("disk_space", 12)));
}

#[test]
fn in_block_on_results() {
    assert!(in_block(Ok(()), "time", 0).is_ok());
    let e = in_block(Err(Error::new("no clock")), "time", 3).unwrap_err();
    assert_eq!(e.message(), "no clock");
    assert_eq!(e.block, Some(("time", 3)));
}

#[test]
fn configuration_is_named_by_its_kind() {
    for (kind, tag) in ALL.iter() {
        let config = BlockConfig { kind: *kind, config: vec![("interval", 5)] };
        assert_eq!(config.name(), *tag);
        assert_eq!(config.config, vec![("interval", 5)]);
    }
}
