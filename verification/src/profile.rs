//! The settings of the program and their defaults.

use vstd::prelude::*;
use vstd::string::*;

verus! {

/// Where the pictures of a local copy are kept.
#[derive(Debug)]
pub struct LocalPictureConfig {
    /// Whether pictures are copied next to the output.
    pub enable: bool,
    /// The directory for the copies, if it is not the default one.
    pub path: Option<String>,
    /// Whether the copies are referred to by absolute paths.
    pub absolute: bool,
}

/// Where pictures are fetched from.
#[derive(Debug)]
pub struct RemotePictureConfig {
    /// What stands before the file name in the address of a picture.
    pub prefix_url: String,
}

/// How pictures are shown.
#[derive(Debug)]
pub struct PictureConfig {
    pub local: LocalPictureConfig,
    pub remote: RemotePictureConfig,
    /// Whether tables on the console have a picture column.
    pub console_picture: bool,
}

/// How Markdown output is written.
#[derive(Debug)]
pub struct MarkdownConfig {
    pub picture: PictureConfig,
}

/// How the score service is reached.
#[derive(Debug)]
pub struct MaimaiDXProberConfig {
    /// The address that answers with the scores of a player.
    pub data_url: String,
    /// The player whose scores are asked for when none is named.
    pub username: Option<String>,
}

/// Where data comes from.
#[derive(Debug)]
pub struct RemoteAPIConfig {
    /// The address of the song catalog.
    pub json_url: String,
    /// The address of the archive of pictures.
    pub resource_url: String,
    pub maimaidxprober: MaimaiDXProberConfig,
}

/// The settings.
#[derive(Debug)]
pub struct Profile {
    pub remote_api: RemoteAPIConfig,
    pub markdown: MarkdownConfig,
}

/// What the settings hold.
pub struct ProfileView {
    pub json_url: Seq<char>,
    pub resource_url: Seq<char>,
    pub data_url: Seq<char>,
    pub username: Option<Seq<char>>,
    pub local_enable: bool,
    pub local_path: Option<Seq<char>>,
    pub local_absolute: bool,
    pub prefix_url: Seq<char>,
    pub console_picture: bool,
}

impl View for Profile {
    type V = ProfileView;

    open spec fn view(&self) -> ProfileView {
        ProfileView {
            json_url: self.remote_api.json_url@,
            resource_url: self.remote_api.resource_url@,
            data_url: self.remote_api.maimaidxprober.data_url@,
            username: match self.remote_api.maimaidxprober.username {
                Some(name) => Some(name@),
                None => None,
            },
            local_enable: self.markdown.picture.local.enable,
            local_path: match self.markdown.picture.local.path {
                Some(path) => Some(path@),
                None => None,
            },
            local_absolute: self.markdown.picture.local.absolute,
            prefix_url: self.markdown.picture.remote.prefix_url@,
            console_picture: self.markdown.picture.console_picture,
        }
    }
}

/// The settings that hold where nothing else is configured.
pub open spec fn default_settings() -> ProfileView {
    ProfileView {
        json_url: "https://www.diving-fish.com/api/maimaidxprober/music_data"@,
        resource_url: "https://www.diving-fish.com/maibot/static.zip"@,
        data_url: "https://www.diving-fish.com/api/maimaidxprober/query/player"@,
        username: None,
        local_enable: false,
        local_path: None,
        local_absolute: false,
        prefix_url: "https://www.diving-fish.com/covers/"@,
        console_picture: false,
    }
}

impl Profile {
    /// The settings that hold where nothing else is configured.
    pub fn default_profile() -> (profile: Profile)
        ensures
            profile@ == default_settings(),
    {
        Profile {
            remote_api: RemoteAPIConfig {
                json_url: String::from_str(
                    "https://www.diving-fish.com/api/maimaidxprober/music_data",
                ),
                resource_url: String::from_str("https://www.diving-fish.com/maibot/static.zip"),
                maimaidxprober: MaimaiDXProberConfig {
                    data_url: String::from_str(
                        "https://www.diving-fish.com/api/maimaidxprober/query/player",
                    ),
                    username: None,
                },
            },
            markdown: MarkdownConfig {
                picture: PictureConfig {
                    local: LocalPictureConfig { enable: false, path: None, absolute: false },
                    remote: RemotePictureConfig {
                        prefix_url: String::from_str("https://www.diving-fish.com/covers/"),
                    },
                    console_picture: false,
                },
            },
        }
    }

    /// The player whose scores are asked for when none is named, if one is configured.
    pub fn get_username(&self) -> (name: Option<String>)
        ensures
            match name {
                Some(text) => self@.username == Some(text@),
                None => self@.username is None,
            },
    {
        match &self.remote_api.maimaidxprober.username {
            Some(text) => Some(text.clone()),
            None => None,
        }
    }
}

} // verus!
