//! What the user asked for, as far as the heuristics depend on it.

use vstd::prelude::*;

verus! {

/// How much is written to the terminal.
#[derive(Copy, Clone, Debug, PartialEq, Eq, Structural)]
pub enum OutputLevel {
    /// everything is shown
    Default,

    /// banners and progress are left out, findings and warnings are shown
    Quiet,

    /// only the bare findings are shown
    Silent,

    /// findings are shown as JSON and nothing else
    SilentJSON,
}

impl OutputLevel {
    /// Messages for a person reading along are wanted at the first two levels only.
    pub open spec fn shows_messages(self) -> bool {
        self == OutputLevel::Default || self == OutputLevel::Quiet
    }

    /// Whether messages for a person reading along are to be printed.
    pub fn prints_messages(self) -> (prints: bool)
        ensures
            prints == self.shows_messages(),
    {
        matches!(self, OutputLevel::Default | OutputLevel::Quiet)
    }
}

/// The user's settings.
#[derive(Clone, Debug)]
pub struct Configuration {
    /// leave every response as it is: nothing is to be filtered out
    pub dont_filter: bool,

    /// put a slash behind every requested path
    pub add_slash: bool,

    /// body to send with a request, empty for none
    pub data: Vec<u8>,

    /// HTTP methods to use
    pub methods: Vec<String>,

    /// status codes that count as an answer
    pub status_codes: Vec<u16>,

    /// how much is written to the terminal
    pub output_level: OutputLevel,
}

/// The settings as mathematical values.
pub struct ConfigurationView {
    pub dont_filter: bool,
    pub add_slash: bool,
    pub data: Seq<u8>,
    pub methods: Seq<Seq<char>>,
    pub status_codes: Seq<u16>,
    pub output_level: OutputLevel,
}

impl View for Configuration {
    type V = ConfigurationView;

    open spec fn view(&self) -> ConfigurationView {
        ConfigurationView {
            dont_filter: self.dont_filter,
            add_slash: self.add_slash,
            data: self.data@,
            methods: self.methods@.map_values(|method: String| method@),
            status_codes: self.status_codes@,
            output_level: self.output_level,
        }
    }
}

impl Configuration {
    /// Whether the user counts `status` as an answer.
    pub fn accepts_status(&self, status: u16) -> (accepts: bool)
        ensures
            accepts == self@.status_codes.contains(status),
    {
        let count: usize = self.status_codes.len();
        for i in 0..count
            invariant
                count == self.status_codes@.len(),
                forall|j: int| 0 <= j < i ==> self.status_codes@[j] != status,
        {
            if self.status_codes[i] == status {
                assert(self@.status_codes[i as int] == status);
                return true;
            }
        }
        false
    }

    /// The body to send with a request, if there is one.
    pub fn request_body(&self) -> (body: Option<&[u8]>)
        ensures
            body is None <==> self@.data.len() == 0,
            body matches Some(bytes) ==> bytes@ == self@.data,
    {
        if self.data.len() == 0 {
            None
        } else {
            Some(self.data.as_slice())
        }
    }

    /// What is to be put behind every requested path, if anything.
    pub fn slash(&self) -> (slash: Option<&'static str>)
        ensures
            slash is Some <==> self@.add_slash,
            slash matches Some(text) ==> text@ == "/"@,
    {
        if self.add_slash {
            Some("/")
        } else {
            None
        }
    }
}

/// What the heuristics share with the rest of a scan.
#[derive(Clone, Debug)]
pub struct Handles {
    /// the user's settings
    pub config: Configuration,
}

/// Messages are shown at the levels `Default` and `Quiet` and at no other.
pub proof fn messages_are_shown_at_two_levels(level: OutputLevel)
    ensures
        level.shows_messages() <==> (level is Default || level is Quiet),
        level.shows_messages() <==> !(level is Silent || level is SilentJSON),
{
}

/// The settings as mathematical values are the settings, each and in order.
pub proof fn settings_are_seen_as_they_are(config: Configuration)
    ensures
        config@.dont_filter == config.dont_filter,
        config@.add_slash == config.add_slash,
        config@.data == config.data@,
        config@.methods.len() == config.methods@.len(),
        forall|i: int|
            0 <= i < config.methods@.len() ==> #[trigger] config@.methods[i]
                == config.methods@[i]@,
        config@.status_codes == config.status_codes@,
        config@.output_level == config.output_level,
{
}

} // verus!
