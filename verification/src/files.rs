//! The game-server files admins may upload, replace or view, and where
//! each lives in the checked-out tree.

use vstd::prelude::*;

verus! {

/// A managed server file.
#[derive(Debug, Clone, Copy, PartialEq, Eq, Structural)]
pub enum File {
    Db,
    Admins,
    Banlist,
    Description,
    Settings,
    Whitelist,
    CliSettings,
}

impl File {
    /// The on-disk location of each managed file.
    pub open spec fn path_view(self) -> Seq<char> {
        match self {
            File::Db => "veloren/target/debug/userdata/server/saves/db.sqlite"@,
            File::Admins => "veloren/target/debug/userdata/server/server_config/admins.ron"@,
            File::Banlist => "veloren/target/debug/userdata/server/server_config/banlist.ron"@,
            File::Description => "veloren/target/debug/userdata/server/server_config/description.ron"@,
            File::Settings => "veloren/target/debug/userdata/server/server_config/settings.ron"@,
            File::Whitelist => "veloren/target/debug/userdata/server/server_config/whitelist.ron"@,
            File::CliSettings => "veloren/target/debug/userdata/server-cli/settings.ron"@,
        }
    }

    /// The file's path, relative to the working directory.
    pub fn path(&self) -> (r: String)
        ensures
            r@ == self.path_view(),
    {
        match self {
            File::Db => "veloren/target/debug/userdata/server/saves/db.sqlite".to_owned(),
            File::Admins => "veloren/target/debug/userdata/server/server_config/admins.ron"
                .to_owned(),
            File::Banlist => "veloren/target/debug/userdata/server/server_config/banlist.ron"
                .to_owned(),
            File::Description =>
                "veloren/target/debug/userdata/server/server_config/description.ron".to_owned(),
            File::Settings => "veloren/target/debug/userdata/server/server_config/settings.ron"
                .to_owned(),
            File::Whitelist => "veloren/target/debug/userdata/server/server_config/whitelist.ron"
                .to_owned(),
            File::CliSettings => "veloren/target/debug/userdata/server-cli/settings.ron"
                .to_owned(),
        }
    }

    /// Whether the file is plain text that can be shown inline: every
    /// managed config is, only the database is not.
    pub open spec fn is_text_view(self) -> bool {
        !(self is Db)
    }

    /// Whether to show the file inline rather than hand it out as an
    /// attachment.
    pub fn is_text(&self) -> (r: bool)
        ensures
            r == self.is_text_view(),
    {
        match self {
            File::Db => false,
            _ => true,
        }
    }
}

} // verus!
