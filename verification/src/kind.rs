//! The closed set of block kinds and their configuration tags.

use crate::errors::{attributed_result, in_block, result_view, Error};
use vstd::prelude::*;

verus! {

/// One variant per supported kind of block. The set is closed: a
/// configuration that names anything else is rejected before it gets here.
#[derive(Debug, Clone, Copy, PartialEq, Eq, Structural)]
pub enum BlockKind {
    AmdGpu,
    Apt,
    Backlight,
    Battery,
    Bluetooth,
    Cpu,
    Custom,
    CustomDbus,
    DiskSpace,
    Dnf,
    Docker,
    ExternalIp,
    FocusedWindow,
    Github,
    Hueshift,
    Kdeconnect,
    Load,
    Maildir,
    Menu,
    Memory,
    Music,
    Net,
    Notify,
    Notmuch,
    NvidiaGpu,
    Pacman,
    Pomodoro,
    Rofication,
    ServiceStatus,
    Sound,
    Speedtest,
    KeyboardLayout,
    Taskwarrior,
    Temperature,
    Time,
    TeaTimer,
    Toggle,
    Uptime,
    Watson,
    Weather,
    Xrandr,
}

impl BlockKind {
    /// The tag under which a configuration selects this kind.
    pub open spec fn tag(self) -> Seq<char> {
        match self {
            BlockKind::AmdGpu => "amd_gpu"@,
            BlockKind::Apt => "apt"@,
            BlockKind::Backlight => "backlight"@,
            BlockKind::Battery => "battery"@,
            BlockKind::Bluetooth => "bluetooth"@,
            BlockKind::Cpu => "cpu"@,
            BlockKind::Custom => "custom"@,
            BlockKind::CustomDbus => "custom_dbus"@,
            BlockKind::DiskSpace => "disk_space"@,
            BlockKind::Dnf => "dnf"@,
            BlockKind::Docker => "docker"@,
            BlockKind::ExternalIp => "external_ip"@,
            BlockKind::FocusedWindow => "focused_window"@,
            BlockKind::Github => "github"@,
            BlockKind::Hueshift => "hueshift"@,
            BlockKind::Kdeconnect => "kdeconnect"@,
            BlockKind::Load => "load"@,
            BlockKind::Maildir => "maildir"@,
            BlockKind::Menu => "menu"@,
            BlockKind::Memory => "memory"@,
            BlockKind::Music => "music"@,
            BlockKind::Net => "net"@,
            BlockKind::Notify => "notify"@,
            BlockKind::Notmuch => "notmuch"@,
            BlockKind::NvidiaGpu => "nvidia_gpu"@,
            BlockKind::Pacman => "pacman"@,
            BlockKind::Pomodoro => "pomodoro"@,
            BlockKind::Rofication => "rofication"@,
            BlockKind::ServiceStatus => "service_status"@,
            BlockKind::Sound => "sound"@,
            BlockKind::Speedtest => "speedtest"@,
            BlockKind::KeyboardLayout => "keyboard_layout"@,
            BlockKind::Taskwarrior => "taskwarrior"@,
            BlockKind::Temperature => "temperature"@,
            BlockKind::Time => "time"@,
            BlockKind::TeaTimer => "tea_timer"@,
            BlockKind::Toggle => "toggle"@,
            BlockKind::Uptime => "uptime"@,
            BlockKind::Watson => "watson"@,
            BlockKind::Weather => "weather"@,
            BlockKind::Xrandr => "xrandr"@,
        }
    }

    /// The kind's stable name, equal to its configuration tag. It is what
    /// errors are attributed with.
    pub fn name(&self) -> (name: &'static str)
        ensures
            name@ == self.tag(),
    {
        match self {
            BlockKind::AmdGpu => "amd_gpu",
            BlockKind::Apt => "apt",
            BlockKind::Backlight => "backlight",
            BlockKind::Battery => "battery",
            BlockKind::Bluetooth => "bluetooth",
            BlockKind::Cpu => "cpu",
            BlockKind::Custom => "custom",
            BlockKind::CustomDbus => "custom_dbus",
            BlockKind::DiskSpace => "disk_space",
            BlockKind::Dnf => "dnf",
            BlockKind::Docker => "docker",
            BlockKind::ExternalIp => "external_ip",
            BlockKind::FocusedWindow => "focused_window",
            BlockKind::Github => "github",
            BlockKind::Hueshift => "hueshift",
            BlockKind::Kdeconnect => "kdeconnect",
            BlockKind::Load => "load",
            BlockKind::Maildir => "maildir",
            BlockKind::Menu => "menu",
            BlockKind::Memory => "memory",
            BlockKind::Music => "music",
            BlockKind::Net => "net",
            BlockKind::Notify => "notify",
            BlockKind::Notmuch => "notmuch",
            BlockKind::NvidiaGpu => "nvidia_gpu",
            BlockKind::Pacman => "pacman",
            BlockKind::Pomodoro => "pomodoro",
            BlockKind::Rofication => "rofication",
            BlockKind::ServiceStatus => "service_status",
            BlockKind::Sound => "sound",
            BlockKind::Speedtest => "speedtest",
            BlockKind::KeyboardLayout => "keyboard_layout",
            BlockKind::Taskwarrior => "taskwarrior",
            BlockKind::Temperature => "temperature",
            BlockKind::Time => "time",
            BlockKind::TeaTimer => "tea_timer",
            BlockKind::Toggle => "toggle",
            BlockKind::Uptime => "uptime",
            BlockKind::Watson => "watson",
            BlockKind::Weather => "weather",
            BlockKind::Xrandr => "xrandr",
        }
    }

    /// Concludes the run of instance `id` of this kind: a success passes
    /// through unchanged, an error is surfaced attributed with the kind's
    /// name and the instance id.
    pub fn conclude(&self, id: usize, outcome: Result<(), Error>) -> (r: Result<(), Error>)
        ensures
            result_view(r) == attributed_result(result_view(outcome), self.tag(), id),
            r is Ok <==> outcome is Ok,
    {
        in_block(outcome, self.name(), id)
    }
}

/// The configuration of one block: which kind of block it is, and that
/// kind's own settings, which only the block itself reads.
pub struct BlockConfig<C> {
    pub kind: BlockKind,
    pub config: C,
}

impl<C> BlockConfig<C> {
    /// The name of the configured kind, equal to the tag that selected it.
    pub fn name(&self) -> (name: &'static str)
        ensures
            name@ == self.kind.tag(),
    {
        self.kind.name()
    }
}

/// What each tag spells.
proof fn lemma_tags_revealed()
    ensures
        "amd_gpu"@ =~= seq!['a', 'm', 'd', '_', 'g', 'p', 'u'],
        "apt"@ =~= seq!['a', 'p', 't'],
        "backlight"@ =~= seq!['b', 'a', 'c', 'k', 'l', 'i', 'g', 'h', 't'],
        "battery"@ =~= seq!['b', 'a', 't', 't', 'e', 'r', 'y'],
        "bluetooth"@ =~= seq!['b', 'l', 'u', 'e', 't', 'o', 'o', 't', 'h'],
        "cpu"@ =~= seq!['c', 'p', 'u'],
        "custom"@ =~= seq!['c', 'u', 's', 't', 'o', 'm'],
        "custom_dbus"@ =~= seq!['c', 'u', 's', 't', 'o', 'm', '_', 'd', 'b', 'u', 's'],
        "disk_space"@ =~= seq!['d', 'i', 's', 'k', '_', 's', 'p', 'a', 'c', 'e'],
        "dnf"@ =~= seq!['d', 'n', 'f'],
        "docker"@ =~= seq!['d', 'o', 'c', 'k', 'e', 'r'],
        "external_ip"@ =~= seq!['e', 'x', 't', 'e', 'r', 'n', 'a', 'l', '_', 'i', 'p'],
        "focused_window"@ =~= seq!['f', 'o', 'c', 'u', 's', 'e', 'd', '_', 'w', 'i', 'n', 'd', 'o', 'w'],
        "github"@ =~= seq!['g', 'i', 't', 'h', 'u', 'b'],
        "hueshift"@ =~= seq!['h', 'u', 'e', 's', 'h', 'i', 'f', 't'],
        "kdeconnect"@ =~= seq!['k', 'd', 'e', 'c', 'o', 'n', 'n', 'e', 'c', 't'],
        "load"@ =~= seq!['l', 'o', 'a', 'd'],
        "maildir"@ =~= seq!['m', 'a', 'i', 'l', 'd', 'i', 'r'],
        "menu"@ =~= seq!['m', 'e', 'n', 'u'],
        "memory"@ =~= seq!['m', 'e', 'm', 'o', 'r', 'y'],
        "music"@ =~= seq!['m', 'u', 's', 'i', 'c'],
        "net"@ =~= seq!['n', 'e', 't'],
        "notify"@ =~= seq!['n', 'o', 't', 'i', 'f', 'y'],
        "notmuch"@ =~= seq!['n', 'o', 't', 'm', 'u', 'c', 'h'],
        "nvidia_gpu"@ =~= seq!['n', 'v', 'i', 'd', 'i', 'a', '_', 'g', 'p', 'u'],
        "pacman"@ =~= seq!['p', 'a', 'c', 'm', 'a', 'n'],
        "pomodoro"@ =~= seq!['p', 'o', 'm', 'o', 'd', 'o', 'r', 'o'],
        "rofication"@ =~= seq!['r', 'o', 'f', 'i', 'c', 'a', 't', 'i', 'o', 'n'],
        "service_status"@ =~= seq!['s', 'e', 'r', 'v', 'i', 'c', 'e', '_', 's', 't', 'a', 't', 'u', 's'],
        "sound"@ =~= seq!['s', 'o', 'u', 'n', 'd'],
        "speedtest"@ =~= seq!['s', 'p', 'e', 'e', 'd', 't', 'e', 's', 't'],
        "keyboard_layout"@ =~= seq!['k', 'e', 'y', 'b', 'o', 'a', 'r', 'd', '_', 'l', 'a', 'y', 'o', 'u', 't'],
        "taskwarrior"@ =~= seq!['t', 'a', 's', 'k', 'w', 'a', 'r', 'r', 'i', 'o', 'r'],
        "temperature"@ =~= seq!['t', 'e', 'm', 'p', 'e', 'r', 'a', 't', 'u', 'r', 'e'],
        "time"@ =~= seq!['t', 'i', 'm', 'e'],
        "tea_timer"@ =~= seq!['t', 'e', 'a', '_', 't', 'i', 'm', 'e', 'r'],
        "toggle"@ =~= seq!['t', 'o', 'g', 'g', 'l', 'e'],
        "uptime"@ =~= seq!['u', 'p', 't', 'i', 'm', 'e'],
        "watson"@ =~= seq!['w', 'a', 't', 's', 'o', 'n'],
        "weather"@ =~= seq!['w', 'e', 'a', 't', 'h', 'e', 'r'],
        "xrandr"@ =~= seq!['x', 'r', 'a', 'n', 'd', 'r'],
{
    reveal_strlit("amd_gpu");
    reveal_strlit("apt");
    reveal_strlit("backlight");
    reveal_strlit("battery");
    reveal_strlit("bluetooth");
    reveal_strlit("cpu");
    reveal_strlit("custom");
    reveal_strlit("custom_dbus");
    reveal_strlit("disk_space");
    reveal_strlit("dnf");
    reveal_strlit("docker");
    reveal_strlit("external_ip");
    reveal_strlit("focused_window");
    reveal_strlit("github");
    reveal_strlit("hueshift");
    reveal_strlit("kdeconnect");
    reveal_strlit("load");
    reveal_strlit("maildir");
    reveal_strlit("menu");
    reveal_strlit("memory");
    reveal_strlit("music");
    reveal_strlit("net");
    reveal_strlit("notify");
    reveal_strlit("notmuch");
    reveal_strlit("nvidia_gpu");
    reveal_strlit("pacman");
    reveal_strlit("pomodoro");
    reveal_strlit("rofication");
    reveal_strlit("service_status");
    reveal_strlit("sound");
    reveal_strlit("speedtest");
    reveal_strlit("keyboard_layout");
    reveal_strlit("taskwarrior");
    reveal_strlit("temperature");
    reveal_strlit("time");
    reveal_strlit("tea_timer");
    reveal_strlit("toggle");
    reveal_strlit("uptime");
    reveal_strlit("watson");
    reveal_strlit("weather");
    reveal_strlit("xrandr");
}

/// No two kinds share a name: a name identifies its kind.
pub proof fn lemma_names_distinct(a: BlockKind, b: BlockKind)
    requires
        a.tag() == b.tag(),
    ensures
        a == b,
{
    lemma_fingerprint(a);
    lemma_fingerprint(b);
}

/// Length, first two and last character of a tag: enough to tell the tags
/// apart.
spec fn fingerprint(s: Seq<char>) -> (int, char, char, char) {
    (s.len() as int, s[0], s[1], s[s.len() - 1])
}

spec fn kind_fingerprint(k: BlockKind) -> (int, char, char, char) {
    match k {
        BlockKind::AmdGpu => (7, 'a', 'm', 'u'),
        BlockKind::Apt => (3, 'a', 'p', 't'),
        BlockKind::Backlight => (9, 'b', 'a', 't'),
        BlockKind::Battery => (7, 'b', 'a', 'y'),
        BlockKind::Bluetooth => (9, 'b', 'l', 'h'),
        BlockKind::Cpu => (3, 'c', 'p', 'u'),
        BlockKind::Custom => (6, 'c', 'u', 'm'),
        BlockKind::CustomDbus => (11, 'c', 'u', 's'),
        BlockKind::DiskSpace => (10, 'd', 'i', 'e'),
        BlockKind::Dnf => (3, 'd', 'n', 'f'),
        BlockKind::Docker => (6, 'd', 'o', 'r'),
        BlockKind::ExternalIp => (11, 'e', 'x', 'p'),
        BlockKind::FocusedWindow => (14, 'f', 'o', 'w'),
        BlockKind::Github => (6, 'g', 'i', 'b'),
        BlockKind::Hueshift => (8, 'h', 'u', 't'),
        BlockKind::Kdeconnect => (10, 'k', 'd', 't'),
        BlockKind::Load => (4, 'l', 'o', 'd'),
        BlockKind::Maildir => (7, 'm', 'a', 'r'),
        BlockKind::Menu => (4, 'm', 'e', 'u'),
        BlockKind::Memory => (6, 'm', 'e', 'y'),
        BlockKind::Music => (5, 'm', 'u', 'c'),
        BlockKind::Net => (3, 'n', 'e', 't'),
        BlockKind::Notify => (6, 'n', 'o', 'y'),
        BlockKind::Notmuch => (7, 'n', 'o', 'h'),
        BlockKind::NvidiaGpu => (10, 'n', 'v', 'u'),
        BlockKind::Pacman => (6, 'p', 'a', 'n'),
        BlockKind::Pomodoro => (8, 'p', 'o', 'o'),
        BlockKind::Rofication => (10, 'r', 'o', 'n'),
        BlockKind::ServiceStatus => (14, 's', 'e', 's'),
        BlockKind::Sound => (5, 's', 'o', 'd'),
        BlockKind::Speedtest => (9, 's', 'p', 't'),
        BlockKind::KeyboardLayout => (15, 'k', 'e', 't'),
        BlockKind::Taskwarrior => (11, 't', 'a', 'r'),
        BlockKind::Temperature => (11, 't', 'e', 'e'),
        BlockKind::Time => (4, 't', 'i', 'e'),
        BlockKind::TeaTimer => (9, 't', 'e', 'r'),
        BlockKind::Toggle => (6, 't', 'o', 'e'),
        BlockKind::Uptime => (6, 'u', 'p', 'e'),
        BlockKind::Watson => (6, 'w', 'a', 'n'),
        BlockKind::Weather => (7, 'w', 'e', 'r'),
        BlockKind::Xrandr => (6, 'x', 'r', 'r'),
    }
}

proof fn lemma_fingerprint(k: BlockKind)
    ensures
        fingerprint(k.tag()) == kind_fingerprint(k),
{
    lemma_tags_revealed();
}

} // verus!
