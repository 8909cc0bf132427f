use vstd::prelude::*;

verus! {

/// The separator between the parts of a path.
pub const SEPARATOR: char = '/';

/// A path with a part adjoined to it. A part that begins at the root
/// replaces the path; else the part follows the path, after a separator
/// unless the path is empty or ends in one.
pub open spec fn joined(base: Seq<char>, relative: Seq<char>) -> Seq<char> {
    if relative.len() > 0 && relative[0] == SEPARATOR {
        relative
    } else if base.len() == 0 || base.last() == SEPARATOR {
        base + relative
    } else {
        base + seq![SEPARATOR] + relative
    }
}

/// Adjoins a part to a path.
pub fn join(base: &str, relative: &str) -> (path: String)
    ensures
        path@ == joined(base@, relative@),
{
    let base_len: usize = base.unicode_len();
    if relative.unicode_len() > 0 && relative.get_char(0) == SEPARATOR {
        return String::from_str(relative);
    }
    let mut path = String::from_str(base);
    if base_len > 0 && base.get_char(base_len - 1) != SEPARATOR {
        proof {
            reveal_strlit("/");
            assert("/"@ =~= seq![SEPARATOR]);
        }
        path.append("/");
    }
    path.append(relative);
    path
}

/// Short sounds that accompany user actions.
#[derive(Clone, Copy, Debug, PartialEq, Eq, Hash, Structural)]
pub enum Sound {
    Error,
    PauseResume,
    Play,
    RecordStart,
    RecordStop,
}

impl Sound {
    pub open spec fn spec_name(self) -> Seq<char> {
        match self {
            Sound::Error => "error"@,
            Sound::PauseResume => "pause-resume"@,
            Sound::Play => "play"@,
            Sound::RecordStart => "record-start"@,
            Sound::RecordStop => "record-stop"@,
        }
    }

    /// Name of the sound, as used in file names.
    pub fn name(self) -> (name: &'static str)
        ensures
            name@ == self.spec_name(),
    {
        match self {
            Sound::Error => "error",
            Sound::PauseResume => "pause-resume",
            Sound::Play => "play",
            Sound::RecordStart => "record-start",
            Sound::RecordStop => "record-stop",
        }
    }

    /// Every sound, once.
    pub fn all() -> (sounds: Vec<Sound>)
        ensures
            sounds@ == seq![
                Sound::Error,
                Sound::PauseResume,
                Sound::Play,
                Sound::RecordStart,
                Sound::RecordStop,
            ],
    {
        vec![Sound::Error, Sound::PauseResume, Sound::Play, Sound::RecordStart, Sound::RecordStop]
    }
}

/// Read-only resources of the server.
#[derive(Clone, Copy, Debug, PartialEq, Eq, Structural)]
pub enum Asset {
    /// The site hosted at the root.
    Site,
    /// Optional GraphQL IDE.
    GraphiQL,
    Sound(Sound),
    /// Optional cover image embedded into recordings.
    PianoRecordingCoverJPEG,
}

/// What the server stores.
#[derive(Clone, Copy, Debug, PartialEq, Eq, Structural)]
pub enum Data {
    Preferences,
    PianoRecordings,
}

#[derive(Clone, Copy, Debug, PartialEq, Eq, Structural)]
pub enum EntryKind {
    File,
    Directory,
}

impl EntryKind {
    pub open spec fn spec_name(self) -> Seq<char> {
        match self {
            EntryKind::File => "file"@,
            EntryKind::Directory => "directory"@,
        }
    }

    pub fn name(self) -> (name: &'static str)
        ensures
            name@ == self.spec_name(),
    {
        match self {
            EntryKind::File => "file",
            EntryKind::Directory => "directory",
        }
    }
}

#[derive(Clone, Copy, Debug, PartialEq, Eq, Structural)]
pub enum EntryRequirement {
    Exists,
    /// The entry must be writable; it is created if it does not exist.
    WritableOrCreate,
}

/// A path with what is expected of it.
#[derive(Debug)]
pub struct PathEntry {
    pub path: String,
    pub kind: EntryKind,
    pub requirement: Option<EntryRequirement>,
}

/// A directory that knows where its items are.
pub trait BaseDir<T> {
    /// Text of the item's full path.
    spec fn entry_path(&self, item: T) -> Seq<char>;

    spec fn entry_kind(&self, item: T) -> EntryKind;

    spec fn entry_requirement(&self, item: T) -> Option<EntryRequirement>;

    fn path(&self, item: T) -> (entry: PathEntry)
        ensures
            entry.path@ == self.entry_path(item),
            entry.kind == self.entry_kind(item),
            entry.requirement == self.entry_requirement(item),
    ;
}

/// Directory of the read-only resources.
#[derive(Debug)]
pub struct AssetsDir(pub String);

/// Extension of the sound files.
pub const SOUNDS_EXTENSION: &'static str = ".wav";

impl AssetsDir {
    /// A directory that was not configured.
    pub fn unset() -> (dir: Self)
        ensures
            dir.0@ == Seq::<char>::empty(),
    {
        AssetsDir(String::new())
    }

    /// Path of an asset below the directory.
    pub open spec fn relative(item: Asset) -> Seq<char> {
        match item {
            Asset::Site => "site"@,
            Asset::GraphiQL => "graphiql"@,
            Asset::Sound(sound) => joined("sounds"@, sound.spec_name() + SOUNDS_EXTENSION@),
            Asset::PianoRecordingCoverJPEG => "piano-recording-cover.jpg"@,
        }
    }
}

impl BaseDir<Asset> for AssetsDir {
    open spec fn entry_path(&self, item: Asset) -> Seq<char> {
        joined(self.0@, Self::relative(item))
    }

    open spec fn entry_kind(&self, item: Asset) -> EntryKind {
        match item {
            Asset::Site | Asset::GraphiQL => EntryKind::Directory,
            _ => EntryKind::File,
        }
    }

    open spec fn entry_requirement(&self, item: Asset) -> Option<EntryRequirement> {
        match item {
            Asset::Site | Asset::Sound(_) => Some(EntryRequirement::Exists),
            _ => None,
        }
    }

    fn path(&self, item: Asset) -> (entry: PathEntry) {
        let (relative, kind, requirement) = match item {
            Asset::Site => (
                String::from_str("site"),
                EntryKind::Directory,
                Some(EntryRequirement::Exists),
            ),
            Asset::GraphiQL => (String::from_str("graphiql"), EntryKind::Directory, None),
            Asset::Sound(sound) => {
                let mut file = String::from_str(sound.name());
                file.append(SOUNDS_EXTENSION);
                (join("sounds", file.as_str()), EntryKind::File, Some(EntryRequirement::Exists))
            },
            Asset::PianoRecordingCoverJPEG => (
                String::from_str("piano-recording-cover.jpg"),
                EntryKind::File,
                None,
            ),
        };
        PathEntry { path: join(self.0.as_str(), relative.as_str()), kind, requirement }
    }
}

impl AssetsDir {
    /// The entries that must be valid for the directory to be usable, in the
    /// order in which they are checked: the directory itself, the site, the
    /// IDE, the cover image and every sound.
    pub fn validate(&self) -> (entries: Vec<PathEntry>)
        ensures
            entries.len() == 9,
            entries[0].path@ == self.0@,
            entries[0].kind == EntryKind::Directory,
            entries[0].requirement == Some(EntryRequirement::Exists),
            forall|i: int|
                1 <= i < 9 ==> {
                    &&& (#[trigger] entries[i]).path@ == self.entry_path(validated_assets()[i - 1])
                    &&& entries[i].kind == self.entry_kind(validated_assets()[i - 1])
                    &&& entries[i].requirement == self.entry_requirement(
                        validated_assets()[i - 1],
                    )
                },
    {
        let mut entries: Vec<PathEntry> = Vec::new();
        entries.push(
            PathEntry {
                path: self.0.clone(),
                kind: EntryKind::Directory,
                requirement: Some(EntryRequirement::Exists),
            },
        );
        entries.push(self.path(Asset::Site));
        entries.push(self.path(Asset::GraphiQL));
        entries.push(self.path(Asset::PianoRecordingCoverJPEG));
        entries.push(self.path(Asset::Sound(Sound::Error)));
        entries.push(self.path(Asset::Sound(Sound::PauseResume)));
        entries.push(self.path(Asset::Sound(Sound::Play)));
        entries.push(self.path(Asset::Sound(Sound::RecordStart)));
        entries.push(self.path(Asset::Sound(Sound::RecordStop)));
        entries
    }
}

/// The assets that are checked, in order.
pub open spec fn validated_assets() -> Seq<Asset> {
    seq![
        Asset::Site,
        Asset::GraphiQL,
        Asset::PianoRecordingCoverJPEG,
        Asset::Sound(Sound::Error),
        Asset::Sound(Sound::PauseResume),
        Asset::Sound(Sound::Play),
        Asset::Sound(Sound::RecordStart),
        Asset::Sound(Sound::RecordStop),
    ]
}

/// Directory in which the server stores its data.
#[derive(Debug)]
pub struct DataDir(pub String);

impl DataDir {
    /// Path of a data item below the directory.
    pub open spec fn relative(item: Data) -> Seq<char> {
        match item {
            Data::Preferences => "prefs.yaml"@,
            Data::PianoRecordings => "piano-recordings"@,
        }
    }

    /// The directory at `path`.
    pub fn from_path(path: &str) -> (dir: Self)
        ensures
            dir.0@ == path@,
    {
        DataDir(String::from_str(path))
    }
}

impl BaseDir<Data> for DataDir {
    open spec fn entry_path(&self, item: Data) -> Seq<char> {
        joined(self.0@, Self::relative(item))
    }

    open spec fn entry_kind(&self, item: Data) -> EntryKind {
        match item {
            Data::Preferences => EntryKind::File,
            Data::PianoRecordings => EntryKind::Directory,
        }
    }

    open spec fn entry_requirement(&self, item: Data) -> Option<EntryRequirement> {
        match item {
            Data::Preferences => None,
            Data::PianoRecordings => Some(EntryRequirement::WritableOrCreate),
        }
    }

    fn path(&self, item: Data) -> (entry: PathEntry) {
        let (relative, kind, requirement) = match item {
            Data::Preferences => ("prefs.yaml", EntryKind::File, None),
            Data::PianoRecordings => (
                "piano-recordings",
                EntryKind::Directory,
                Some(EntryRequirement::WritableOrCreate),
            ),
        };
        PathEntry { path: join(self.0.as_str(), relative), kind, requirement }
    }
}

impl DataDir {
    /// The entries that must be valid for the directory to be usable, in the
    /// order in which they are checked: the directory itself, the
    /// preferences and the recordings.
    pub fn validate(&self) -> (entries: Vec<PathEntry>)
        ensures
            entries.len() == 3,
            entries[0].path@ == self.0@,
            entries[0].kind == EntryKind::Directory,
            entries[0].requirement == Some(EntryRequirement::WritableOrCreate),
            entries[1].path@ == self.entry_path(Data::Preferences),
            entries[1].kind == EntryKind::File,
            entries[1].requirement is None,
            entries[2].path@ == self.entry_path(Data::PianoRecordings),
            entries[2].kind == EntryKind::Directory,
            entries[2].requirement == Some(EntryRequirement::WritableOrCreate),
    {
        let mut entries: Vec<PathEntry> = Vec::new();
        entries.push(
            PathEntry {
                path: self.0.clone(),
                kind: EntryKind::Directory,
                requirement: Some(EntryRequirement::WritableOrCreate),
            },
        );
        entries.push(self.path(Data::Preferences));
        entries.push(self.path(Data::PianoRecordings));
        entries
    }
}

/// What the file system says of an entry. The answers are looked at only as
/// far as the entry's requirement asks for them.
#[derive(Debug)]
pub struct Probe {
    /// Whether the entry exists, or why that could not be checked.
    pub exists: Result<bool, String>,
    /// Whether the entry is of the expected kind.
    pub matches_kind: bool,
    /// Whether the entry is read-only, or why that could not be queried.
    pub readonly: Result<bool, String>,
}

/// Verdict on an entry.
#[derive(Debug)]
pub enum Validation {
    Valid,
    /// The entry is missing and is to be created, as a file or a directory.
    Create(EntryKind),
    /// What is wrong with the entry.
    Invalid(String),
}

impl PathEntry {
    /// The text of a complaint about this entry.
    pub open spec fn complaint(&self, message: Seq<char>) -> Seq<char> {
        self.kind.spec_name() + " '"@ + self.path@ + "': "@ + message
    }

    fn complain(&self, message: &str) -> (text: String)
        ensures
            text@ == self.complaint(message@),
    {
        let mut text = String::from_str(self.kind.name());
        text.append(" '");
        text.append(self.path.as_str());
        text.append("': ");
        text.append(message);
        text
    }

    fn complain_with(&self, message: &str, detail: &str) -> (text: String)
        ensures
            text@ == self.complaint(message@ + detail@ + ")"@),
    {
        let mut full = String::from_str(message);
        full.append(detail);
        full.append(")");
        self.complain(full.as_str())
    }

    /// What is wrong with the entry, if anything, given what the file system
    /// says; `None` if it is valid or only needs to be created.
    pub open spec fn fault(&self, probe: Probe) -> Option<Seq<char>> {
        if self.path@.len() == 0 {
            Some("path is not set"@)
        } else if self.requirement is None {
            None
        } else if probe.exists is Err {
            Some("unable to check existence ("@ + probe.exists->Err_0@ + ")"@)
        } else if !probe.exists->Ok_0 {
            if self.requirement == Some(EntryRequirement::Exists) {
                Some("not exists"@)
            } else {
                None
            }
        } else if !probe.matches_kind {
            Some("not a "@ + self.kind.spec_name())
        } else if self.requirement == Some(EntryRequirement::Exists) {
            None
        } else if probe.readonly is Err {
            Some("unable to query metadata ("@ + probe.readonly->Err_0@ + ")"@)
        } else if probe.readonly->Ok_0 {
            Some("not writable"@)
        } else {
            None
        }
    }

    /// The entry is missing and its requirement asks to create it.
    pub open spec fn to_create(&self, probe: Probe) -> bool {
        &&& self.path@.len() > 0
        &&& self.requirement == Some(EntryRequirement::WritableOrCreate)
        &&& probe.exists == Ok::<bool, String>(false)
    }

    /// Judges the entry by what the file system says of it. An unset path is
    /// always a fault; an entry without requirement is valid unseen.
    pub fn validate(&self, probe: &Probe) -> (verdict: Validation)
        ensures
            match self.fault(*probe) {
                Some(message) => verdict matches Validation::Invalid(text) && text@
                    == self.complaint(message),
                None => if self.to_create(*probe) {
                    verdict == Validation::Create(self.kind)
                } else {
                    verdict == Validation::Valid
                },
            },
    {
        if self.path.as_str().unicode_len() == 0 {
            return Validation::Invalid(self.complain("path is not set"));
        }
        let requirement = match self.requirement {
            None => {
                return Validation::Valid;
            },
            Some(requirement) => requirement,
        };
        let exists = match &probe.exists {
            Ok(exists) => *exists,
            Err(e) => {
                return Validation::Invalid(
                    self.complain_with("unable to check existence (", e.as_str()),
                );
            },
        };
        match requirement {
            EntryRequirement::Exists => {
                if !exists {
                    return Validation::Invalid(self.complain("not exists"));
                } else if !probe.matches_kind {
                    return Validation::Invalid(self.not_a_kind());
                }
                Validation::Valid
            },
            EntryRequirement::WritableOrCreate => {
                if exists {
                    if !probe.matches_kind {
                        return Validation::Invalid(self.not_a_kind());
                    }
                    match &probe.readonly {
                        Ok(readonly) => {
                            if *readonly {
                                return Validation::Invalid(self.complain("not writable"));
                            }
                            Validation::Valid
                        },
                        Err(e) => Validation::Invalid(
                            self.complain_with("unable to query metadata (", e.as_str()),
                        ),
                    }
                } else {
                    Validation::Create(self.kind)
                }
            },
        }
    }

    fn not_a_kind(&self) -> (text: String)
        ensures
            text@ == self.complaint("not a "@ + self.kind.spec_name()),
    {
        let mut message = String::from_str("not a ");
        message.append(self.kind.name());
        self.complain(message.as_str())
    }

    /// The complaint for an entry that could not be created.
    pub fn creation_failed(&self, error: &str) -> (text: String)
        ensures
            text@ == self.complaint("unable to create ("@ + error@ + ")"@),
    {
        self.complain_with("unable to create (", error)
    }
}

} // verus!
