use vstd::prelude::*;

verus! {

/// The shared objects that the bindings are resolved from.
#[derive(Clone, Copy, Debug, PartialEq, Eq, Structural)]
pub enum Library {
    Dlog,
    TizenCore,
    Vconf,
    Pkgmgr,
    PkgmgrInfo,
    Glib,
    Gobject,
    Soup,
    AppEvent,
    AppControl,
    SystemInfo,
    Alarm,
    Bundle,
    Aul,
    Action,
}

/// How many shared objects there are.
pub const LIBRARY_COUNT: usize = 15;

/// The slot of a library in a table of `LIBRARY_COUNT` entries.
pub open spec fn spec_index(lib: Library) -> nat {
    match lib {
        Library::Dlog => 0,
        Library::TizenCore => 1,
        Library::Vconf => 2,
        Library::Pkgmgr => 3,
        Library::PkgmgrInfo => 4,
        Library::Glib => 5,
        Library::Gobject => 6,
        Library::Soup => 7,
        Library::AppEvent => 8,
        Library::AppControl => 9,
        Library::SystemInfo => 10,
        Library::Alarm => 11,
        Library::Bundle => 12,
        Library::Aul => 13,
        Library::Action => 14,
    }
}

/// The file names tried, in this order, when the library is opened.
pub open spec fn spec_candidates(lib: Library) -> Seq<Seq<char>> {
    match lib {
        Library::Dlog => seq!["libdlog.so.0"@, "libdlog.so"@],
        Library::TizenCore => seq!["libtizen-core.so.0"@, "libtizen-core.so"@],
        Library::Vconf => seq!["libvconf.so.0"@, "libvconf.so"@],
        Library::Pkgmgr => seq!["libpkgmgr-client.so.0"@, "libpkgmgr-client.so"@],
        Library::PkgmgrInfo => seq!["libpkgmgr-info.so.0"@, "libpkgmgr-info.so"@],
        Library::Glib => seq!["libglib-2.0.so.0"@, "libglib-2.0.so"@],
        Library::Gobject => seq!["libgobject-2.0.so.0"@, "libgobject-2.0.so"@],
        Library::Soup => seq![
            "libsoup-3.0.so.0"@,
            "libsoup-3.0.so"@,
            "libsoup-2.4.so.1"@,
            "libsoup-2.4.so"@,
        ],
        Library::AppEvent => seq!["libcapi-appfw-event.so.0"@, "libcapi-appfw-event.so"@],
        Library::AppControl => seq![
            "libcapi-appfw-app-manager.so.0"@,
            "libcapi-appfw-app-manager.so"@,
        ],
        Library::SystemInfo => seq!["libcapi-system-info.so.0"@, "libcapi-system-info.so"@],
        Library::Alarm => seq!["libcapi-appfw-alarm.so.0"@, "libcapi-appfw-alarm.so"@],
        Library::Bundle => seq!["libbundle.so.0"@, "libbundle.so"@],
        Library::Aul => seq!["libaul.so.0"@, "libaul.so"@],
        Library::Action => seq![
            "libcapi-appfw-tizen-action.so.1"@,
            "libtizen-action.so.1"@,
            "libtizen-action.so"@,
        ],
    }
}

impl Library {
    /// The slot of this library in a table of `LIBRARY_COUNT` entries.
    pub fn index(self) -> (r: usize)
        ensures
            r == spec_index(self),
            r < LIBRARY_COUNT,
    {
        match self {
            Library::Dlog => 0,
            Library::TizenCore => 1,
            Library::Vconf => 2,
            Library::Pkgmgr => 3,
            Library::PkgmgrInfo => 4,
            Library::Glib => 5,
            Library::Gobject => 6,
            Library::Soup => 7,
            Library::AppEvent => 8,
            Library::AppControl => 9,
            Library::SystemInfo => 10,
            Library::Alarm => 11,
            Library::Bundle => 12,
            Library::Aul => 13,
            Library::Action => 14,
        }
    }

    /// How many file names are tried for this library.
    pub fn candidate_count(self) -> (r: usize)
        ensures
            r == spec_candidates(self).len(),
    {
        match self {
            Library::Action => 3,
            Library::Soup => 4,
            _ => 2,
        }
    }

    /// The `i`-th file name tried for this library, if there is one.
    pub fn candidate(self, i: usize) -> (r: Option<&'static str>)
        ensures
            i < spec_candidates(self).len() <==> r is Some,
            r matches Some(name) ==> name@ == spec_candidates(self)[i as int],
    {
        let names: (&'static str, &'static str, Option<&'static str>, Option<&'static str>) = match self {
            Library::Dlog => ("libdlog.so.0", "libdlog.so", None, None),
            Library::TizenCore => ("libtizen-core.so.0", "libtizen-core.so", None, None),
            Library::Vconf => ("libvconf.so.0", "libvconf.so", None, None),
            Library::Pkgmgr => ("libpkgmgr-client.so.0", "libpkgmgr-client.so", None, None),
            Library::PkgmgrInfo => ("libpkgmgr-info.so.0", "libpkgmgr-info.so", None, None),
            Library::Glib => ("libglib-2.0.so.0", "libglib-2.0.so", None, None),
            Library::Gobject => ("libgobject-2.0.so.0", "libgobject-2.0.so", None, None),
            Library::Soup => (
                "libsoup-3.0.so.0",
                "libsoup-3.0.so",
                Some("libsoup-2.4.so.1"),
                Some("libsoup-2.4.so"),
            ),
            Library::AppEvent => ("libcapi-appfw-event.so.0", "libcapi-appfw-event.so", None, None),
            Library::AppControl => (
                "libcapi-appfw-app-manager.so.0",
                "libcapi-appfw-app-manager.so",
                None,
                None,
            ),
            Library::SystemInfo => ("libcapi-system-info.so.0", "libcapi-system-info.so", None, None),
            Library::Alarm => ("libcapi-appfw-alarm.so.0", "libcapi-appfw-alarm.so", None, None),
            Library::Bundle => ("libbundle.so.0", "libbundle.so", None, None),
            Library::Aul => ("libaul.so.0", "libaul.so", None, None),
            Library::Action => (
                "libcapi-appfw-tizen-action.so.1",
                "libtizen-action.so.1",
                Some("libtizen-action.so"),
                None,
            ),
        };
        if i == 0 {
            Some(names.0)
        } else if i == 1 {
            Some(names.1)
        } else if i == 2 {
            names.2
        } else if i == 3 {
            names.3
        } else {
            None
        }
    }
}

/// What opening a library asks for next.
#[derive(Clone, Copy, Debug, PartialEq, Eq)]
pub enum LoadStep {
    /// Try to open the shared object of this file name.
    Open(&'static str),
    /// The library is open: the candidate of this index was the one that opened.
    Opened(usize),
    /// No candidate could be opened: every binding of the library falls back.
    Unavailable,
}

/// `LoadStep` as a mathematical value.
pub enum LoadStepView {
    Open(Seq<char>),
    Opened(nat),
    Unavailable,
}

impl View for LoadStep {
    type V = LoadStepView;

    open spec fn view(&self) -> LoadStepView {
        match *self {
            LoadStep::Open(name) => LoadStepView::Open(name@),
            LoadStep::Opened(i) => LoadStepView::Opened(i as nat),
            LoadStep::Unavailable => LoadStepView::Unavailable,
        }
    }
}

/// The step that follows `tried` attempts, the last of which opened the
/// library when `last_opened` holds.
pub open spec fn spec_load_step(lib: Library, tried: nat, last_opened: bool) -> LoadStepView {
    if last_opened {
        LoadStepView::Opened((tried - 1) as nat)
    } else if tried < spec_candidates(lib).len() {
        LoadStepView::Open(spec_candidates(lib)[tried as int])
    } else {
        LoadStepView::Unavailable
    }
}

/// Decides how opening `lib` goes on after `tried` attempts; `last_opened`
/// tells whether the most recent attempt opened the shared object.
///
/// The candidates are tried in their order, each at most once, and the
/// first one that opens is kept.
pub fn load_step(lib: Library, tried: usize, last_opened: bool) -> (step: LoadStep)
    requires
        last_opened ==> tried > 0,
    ensures
        step@ == spec_load_step(lib, tried as nat, last_opened),
{
    if last_opened {
        LoadStep::Opened(tried - 1)
    } else {
        match lib.candidate(tried) {
            Some(name) => LoadStep::Open(name),
            None => LoadStep::Unavailable,
        }
    }
}

/// The index of the first candidate, from `from` on, that opens, when
/// `opens[i]` tells whether candidate `i` opens.
pub open spec fn first_opening(opens: Seq<bool>, from: nat, count: nat) -> Option<nat>
    decreases count - from,
{
    if from >= count {
        None
    } else if opens[from as int] {
        Some(from)
    } else {
        first_opening(opens, from + 1, count)
    }
}

/// Where driving `load_step` ends when candidate `i` opens exactly when
/// `opens[i]` holds: `Some(i)` for `Opened(i)`, `None` for `Unavailable`.
pub open spec fn run_load(lib: Library, opens: Seq<bool>, tried: nat, last_opened: bool) -> Option<
    nat,
>
    decreases spec_candidates(lib).len() - tried,
{
    if tried > spec_candidates(lib).len() {
        None
    } else {
        match spec_load_step(lib, tried, last_opened) {
            LoadStepView::Opened(i) => Some(i),
            LoadStepView::Unavailable => None,
            LoadStepView::Open(_) => run_load(lib, opens, tried + 1, opens[tried as int]),
        }
    }
}

/// Opening a library keeps the first of its file names that opens, in the
/// order of `spec_candidates`; when none opens, the library is unavailable.
pub proof fn lemma_load_keeps_first_opening(lib: Library, opens: Seq<bool>)
    requires
        opens.len() == spec_candidates(lib).len(),
    ensures
        run_load(lib, opens, 0, false) == first_opening(opens, 0, spec_candidates(lib).len()),
{
    lemma_run_load_from(lib, opens, 0);
}

proof fn lemma_run_load_from(lib: Library, opens: Seq<bool>, tried: nat)
    requires
        opens.len() == spec_candidates(lib).len(),
        tried <= spec_candidates(lib).len(),
    ensures
        run_load(lib, opens, tried, false) == first_opening(
            opens,
            tried,
            spec_candidates(lib).len(),
        ),
    decreases spec_candidates(lib).len() - tried,
{
    let n = spec_candidates(lib).len();
    if tried < n {
        lemma_run_load_from(lib, opens, tried + 1);
        if opens[tried as int] {
            assert(run_load(lib, opens, tried + 1, true) == Some(tried));
        }
    }
}

/// Every library is tried under at least two file names, and the slots of
/// distinct libraries differ.
pub proof fn lemma_libraries_are_distinct(a: Library, b: Library)
    ensures
        spec_candidates(a).len() >= 2,
        spec_index(a) < LIBRARY_COUNT,
        a != b ==> spec_index(a) != spec_index(b),
{
}

/// A character that may stand in the file name of a shared object here.
pub open spec fn is_file_name_char(c: char) -> bool {
    ('a' <= c && c <= 'z') || ('0' <= c && c <= '9') || c == '.' || c == '-' || c == '_'
}

/// Every file name tried is a plain, non-empty file name without a
/// directory part or a NUL character, so the system searches its library
/// path for it.
pub proof fn lemma_candidates_are_plain_file_names(lib: Library, i: int)
    requires
        0 <= i < spec_candidates(lib).len(),
    ensures
        spec_candidates(lib)[i].len() > 0,
        forall|j: int|
            0 <= j < spec_candidates(lib)[i].len() ==> #[trigger] is_file_name_char(
                spec_candidates(lib)[i][j],
            ),
{
    match lib {
        Library::Dlog => {
            reveal_strlit("libdlog.so.0");
            reveal_strlit("libdlog.so");
        },
        Library::TizenCore => {
            reveal_strlit("libtizen-core.so.0");
            reveal_strlit("libtizen-core.so");
        },
        Library::Vconf => {
            reveal_strlit("libvconf.so.0");
            reveal_strlit("libvconf.so");
        },
        Library::Pkgmgr => {
            reveal_strlit("libpkgmgr-client.so.0");
            reveal_strlit("libpkgmgr-client.so");
        },
        Library::PkgmgrInfo => {
            reveal_strlit("libpkgmgr-info.so.0");
            reveal_strlit("libpkgmgr-info.so");
        },
        Library::Glib => {
            reveal_strlit("libglib-2.0.so.0");
            reveal_strlit("libglib-2.0.so");
        },
        Library::Gobject => {
            reveal_strlit("libgobject-2.0.so.0");
            reveal_strlit("libgobject-2.0.so");
        },
        Library::Soup => {
            reveal_strlit("libsoup-3.0.so.0");
            reveal_strlit("libsoup-3.0.so");
            reveal_strlit("libsoup-2.4.so.1");
            reveal_strlit("libsoup-2.4.so");
        },
        Library::AppEvent => {
            reveal_strlit("libcapi-appfw-event.so.0");
            reveal_strlit("libcapi-appfw-event.so");
        },
        Library::AppControl => {
            reveal_strlit("libcapi-appfw-app-manager.so.0");
            reveal_strlit("libcapi-appfw-app-manager.so");
        },
        Library::SystemInfo => {
            reveal_strlit("libcapi-system-info.so.0");
            reveal_strlit("libcapi-system-info.so");
        },
        Library::Alarm => {
            reveal_strlit("libcapi-appfw-alarm.so.0");
            reveal_strlit("libcapi-appfw-alarm.so");
        },
        Library::Bundle => {
            reveal_strlit("libbundle.so.0");
            reveal_strlit("libbundle.so");
        },
        Library::Aul => {
            reveal_strlit("libaul.so.0");
            reveal_strlit("libaul.so");
        },
        Library::Action => {
            reveal_strlit("libcapi-appfw-tizen-action.so.1");
            reveal_strlit("libtizen-action.so.1");
            reveal_strlit("libtizen-action.so");
        },
    }
}

/// The development name (`lib<name>.so`) of the shared object of a library
/// with a single soname; soup's names are those of soup 3.0 and soup 2.4,
/// and the Action framework's those of its capi and plain builds.
pub open spec fn so_name(lib: Library) -> Seq<char> {
    match lib {
        Library::Dlog => "libdlog.so"@,
        Library::TizenCore => "libtizen-core.so"@,
        Library::Vconf => "libvconf.so"@,
        Library::Pkgmgr => "libpkgmgr-client.so"@,
        Library::PkgmgrInfo => "libpkgmgr-info.so"@,
        Library::Glib => "libglib-2.0.so"@,
        Library::Gobject => "libgobject-2.0.so"@,
        Library::AppEvent => "libcapi-appfw-event.so"@,
        Library::AppControl => "libcapi-appfw-app-manager.so"@,
        Library::SystemInfo => "libcapi-system-info.so"@,
        Library::Alarm => "libcapi-appfw-alarm.so"@,
        Library::Bundle => "libbundle.so"@,
        Library::Aul => "libaul.so"@,
        Library::Soup => "libsoup-3.0.so"@,
        Library::Action => "libtizen-action.so"@,
    }
}

/// The soname suffix (`.<major>`) of a library's shared object.
pub open spec fn so_version(lib: Library) -> Seq<char> {
    match lib {
        Library::Soup => ".0"@,
        Library::Action => ".1"@,
        _ => ".0"@,
    }
}

/// A library is opened under the names of its own shared object: first its
/// versioned soname, then its development name.  Soup tries soup 3.0 before
/// soup 2.4; the Action framework tries its capi build before the plain one.
pub proof fn lemma_candidates_are_own_sonames(lib: Library)
    ensures
        lib != Library::Soup && lib != Library::Action ==> spec_candidates(lib) == seq![
            so_name(lib) + so_version(lib),
            so_name(lib),
        ],
        lib == Library::Soup ==> spec_candidates(lib) == seq![
            so_name(lib) + so_version(lib),
            so_name(lib),
            "libsoup-2.4.so"@ + ".1"@,
            "libsoup-2.4.so"@,
        ],
        lib == Library::Action ==> spec_candidates(lib) == seq![
            "libcapi-appfw-tizen-action.so"@ + so_version(lib),
            so_name(lib) + so_version(lib),
            so_name(lib),
        ],
{
    reveal_strlit(".0");
    reveal_strlit(".1");
    match lib {
        Library::Dlog => {
            reveal_strlit("libdlog.so.0");
            reveal_strlit("libdlog.so");
            reveal_strlit("libdlog.so");
            assert("libdlog.so.0"@ =~= "libdlog.so"@ + ".0"@);
        },
        Library::TizenCore => {
            reveal_strlit("libtizen-core.so.0");
            reveal_strlit("libtizen-core.so");
            reveal_strlit("libtizen-core.so");
            assert("libtizen-core.so.0"@ =~= "libtizen-core.so"@ + ".0"@);
        },
        Library::Vconf => {
            reveal_strlit("libvconf.so.0");
            reveal_strlit("libvconf.so");
            reveal_strlit("libvconf.so");
            assert("libvconf.so.0"@ =~= "libvconf.so"@ + ".0"@);
        },
        Library::Pkgmgr => {
            reveal_strlit("libpkgmgr-client.so.0");
            reveal_strlit("libpkgmgr-client.so");
            reveal_strlit("libpkgmgr-client.so");
            assert("libpkgmgr-client.so.0"@ =~= "libpkgmgr-client.so"@ + ".0"@);
        },
        Library::PkgmgrInfo => {
            reveal_strlit("libpkgmgr-info.so.0");
            reveal_strlit("libpkgmgr-info.so");
            reveal_strlit("libpkgmgr-info.so");
            assert("libpkgmgr-info.so.0"@ =~= "libpkgmgr-info.so"@ + ".0"@);
        },
        Library::Glib => {
            reveal_strlit("libglib-2.0.so.0");
            reveal_strlit("libglib-2.0.so");
            reveal_strlit("libglib-2.0.so");
            assert("libglib-2.0.so.0"@ =~= "libglib-2.0.so"@ + ".0"@);
        },
        Library::Gobject => {
            reveal_strlit("libgobject-2.0.so.0");
            reveal_strlit("libgobject-2.0.so");
            reveal_strlit("libgobject-2.0.so");
            assert("libgobject-2.0.so.0"@ =~= "libgobject-2.0.so"@ + ".0"@);
        },
        Library::Soup => {
            reveal_strlit("libsoup-3.0.so.0");
            reveal_strlit("libsoup-3.0.so");
            reveal_strlit("libsoup-2.4.so.1");
            reveal_strlit("libsoup-2.4.so");
            reveal_strlit("libsoup-3.0.so");
            reveal_strlit("libsoup-2.4.so");
            assert("libsoup-3.0.so.0"@ =~= "libsoup-3.0.so"@ + ".0"@);
            assert("libsoup-2.4.so.1"@ =~= "libsoup-2.4.so"@ + ".1"@);
        },
        Library::AppEvent => {
            reveal_strlit("libcapi-appfw-event.so.0");
            reveal_strlit("libcapi-appfw-event.so");
            reveal_strlit("libcapi-appfw-event.so");
            assert("libcapi-appfw-event.so.0"@ =~= "libcapi-appfw-event.so"@ + ".0"@);
        },
        Library::AppControl => {
            reveal_strlit("libcapi-appfw-app-manager.so.0");
            reveal_strlit("libcapi-appfw-app-manager.so");
            reveal_strlit("libcapi-appfw-app-manager.so");
            assert("libcapi-appfw-app-manager.so.0"@ =~= "libcapi-appfw-app-manager.so"@ + ".0"@);
        },
        Library::SystemInfo => {
            reveal_strlit("libcapi-system-info.so.0");
            reveal_strlit("libcapi-system-info.so");
            reveal_strlit("libcapi-system-info.so");
            assert("libcapi-system-info.so.0"@ =~= "libcapi-system-info.so"@ + ".0"@);
        },
        Library::Alarm => {
            reveal_strlit("libcapi-appfw-alarm.so.0");
            reveal_strlit("libcapi-appfw-alarm.so");
            reveal_strlit("libcapi-appfw-alarm.so");
            assert("libcapi-appfw-alarm.so.0"@ =~= "libcapi-appfw-alarm.so"@ + ".0"@);
        },
        Library::Bundle => {
            reveal_strlit("libbundle.so.0");
            reveal_strlit("libbundle.so");
            reveal_strlit("libbundle.so");
            assert("libbundle.so.0"@ =~= "libbundle.so"@ + ".0"@);
        },
        Library::Aul => {
            reveal_strlit("libaul.so.0");
            reveal_strlit("libaul.so");
            reveal_strlit("libaul.so");
            assert("libaul.so.0"@ =~= "libaul.so"@ + ".0"@);
        },
        Library::Action => {
            reveal_strlit("libcapi-appfw-tizen-action.so.1");
            reveal_strlit("libtizen-action.so.1");
            reveal_strlit("libtizen-action.so");
            reveal_strlit("libcapi-appfw-tizen-action.so");
            reveal_strlit("libtizen-action.so");
            assert("libcapi-appfw-tizen-action.so.1"@ =~= "libcapi-appfw-tizen-action.so"@ + ".1"@);
            assert("libtizen-action.so.1"@ =~= "libtizen-action.so"@ + ".1"@);
        },
    }
}

} // verus!
