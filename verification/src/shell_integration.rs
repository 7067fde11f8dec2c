//! The file-manager "recognise with Azusa Lens" action: its label, where it
//! is registered, and the registration entries.

use vstd::prelude::*;
use crate::paths::{join_path, joined};
use crate::platform::Platform;
use crate::text::{append_str, chars_of, concat2, owned, push_char, trim, trimmed, views};

verus! {

broadcast use vstd::string::group_string_axioms;

/// The label of the file-manager action.
pub const CONTEXT_MENU_LABEL: &'static str = "使用 Azusa Lens 识别";

/// Whether the platform supports registering the action.
pub fn is_supported(platform: Platform) -> (r: bool)
    ensures
        r == (platform == Platform::Windows || platform == Platform::Linux),
{
    platform == Platform::Windows || platform == Platform::Linux
}

/// What the settings page says about the action on a platform.
pub open spec fn status_text(platform: Platform) -> Seq<char> {
    match platform {
        Platform::Windows => "Adds “使用 Azusa Lens 识别” to the context menu for supported image files. The action uses the configured Document OCR model."@,
        Platform::Linux => "Registers a KDE service-menu action and a freedesktop image handler named “使用 Azusa Lens 识别”. Other file managers may expose it under Open With."@,
        Platform::MacOs => "Finder context-menu registration is not enabled yet. Azusa Lens does not install a Finder extension or Service automatically."@,
        Platform::Other => "File-manager context-menu registration is not supported on this platform."@,
    }
}

/// What the settings page says about the action on `platform`.
pub fn status_detail(platform: Platform) -> (r: String)
    ensures
        r@ == status_text(platform),
{
    match platform {
        Platform::Windows => owned("Adds “使用 Azusa Lens 识别” to the context menu for supported image files. The action uses the configured Document OCR model."),
        Platform::Linux => owned("Registers a KDE service-menu action and a freedesktop image handler named “使用 Azusa Lens 识别”. Other file managers may expose it under Open With."),
        Platform::MacOs => owned("Finder context-menu registration is not enabled yet. Azusa Lens does not install a Finder extension or Service automatically."),
        Platform::Other => owned("File-manager context-menu registration is not supported on this platform."),
    }
}

/// The file extensions the Windows action is registered for.
pub fn windows_image_extensions() -> (r: [&'static str; 7])
    ensures
        r@.len() == 7,
        r@[0]@ == ".png"@ && r@[1]@ == ".jpg"@ && r@[2]@ == ".jpeg"@ && r@[3]@ == ".webp"@
            && r@[4]@ == ".bmp"@ && r@[5]@ == ".tif"@ && r@[6]@ == ".tiff"@,
{
    [".png", ".jpg", ".jpeg", ".webp", ".bmp", ".tif", ".tiff"]
}

/// The registry key of the action for files with `extension`.
pub fn windows_context_menu_key(extension: &str) -> (r: String)
    ensures
        r@ == "HKCU\\Software\\Classes\\SystemFileAssociations\\"@ + extension@
            + "\\shell\\AzusaLensOCR"@,
{
    let mut key = owned("HKCU\\Software\\Classes\\SystemFileAssociations\\");
    append_str(&mut key, extension);
    append_str(&mut key, "\\shell\\AzusaLensOCR");
    key
}

/// The command the Windows action runs, for the executable at `executable`.
pub fn windows_command(executable: &str) -> (r: String)
    ensures
        r@ == "\""@ + executable@ + "\" --ocr-type document --ocr-file \"%1\""@,
{
    let mut command = owned("\"");
    append_str(&mut command, executable);
    append_str(&mut command, "\" --ocr-type document --ocr-file \"%1\"");
    command
}

/// The message of a registry command that failed: the first non-empty of
/// its trimmed error output and trimmed output, else its exit status.
pub fn reg_error(action: &str, status: &str, stderr: &str, stdout: &str) -> (r: String)
    ensures
        trim(stderr@).len() > 0 ==> r@ == "failed to "@ + action@ + ": "@ + trim(stderr@),
        trim(stderr@).len() == 0 && trim(stdout@).len() > 0 ==> r@ == "failed to "@ + action@
            + ": "@ + trim(stdout@),
        trim(stderr@).len() == 0 && trim(stdout@).len() == 0 ==> r@ == "failed to "@ + action@
            + ": "@ + status@,
{
    let error = trimmed(stderr);
    let output = trimmed(stdout);
    let detail = if error.unicode_len() > 0 {
        error
    } else if output.unicode_len() > 0 {
        output
    } else {
        owned(status)
    };
    let mut message = owned("failed to ");
    append_str(&mut message, action);
    append_str(&mut message, ": ");
    append_str(&mut message, detail.as_str());
    message
}

/// The `reg.exe` arguments that register the action for files with
/// `extension`: the label, the icon, and the command.
pub open spec fn registration_for(extension: Seq<char>, executable: Seq<char>) -> Seq<Seq<Seq<char>>> {
    let key = "HKCU\\Software\\Classes\\SystemFileAssociations\\"@ + extension
        + "\\shell\\AzusaLensOCR"@;
    seq![
        seq!["add"@, key, "/ve"@, "/d"@, CONTEXT_MENU_LABEL@, "/f"@],
        seq!["add"@, key, "/v"@, "Icon"@, "/d"@, executable, "/f"@],
        seq![
            "add"@,
            key + "\\command"@,
            "/ve"@,
            "/d"@,
            "\""@ + executable + "\" --ocr-type document --ocr-file \"%1\""@,
            "/f"@,
        ],
    ]
}

/// The `reg.exe` runs that register the action, extension after extension.
pub open spec fn registration_steps(executable: Seq<char>) -> Seq<Seq<Seq<char>>> {
    registration_for(".png"@, executable) + registration_for(".jpg"@, executable)
        + registration_for(".jpeg"@, executable) + registration_for(".webp"@, executable)
        + registration_for(".bmp"@, executable) + registration_for(".tif"@, executable)
        + registration_for(".tiff"@, executable)
}

/// Appends the runs that register the action for files with `extension`.
fn push_registration(steps: &mut Vec<Vec<String>>, extension: &str, executable: &str)
    ensures
        final(steps)@.map_values(|args: Vec<String>| views(args@)) == old(steps)@.map_values(
            |args: Vec<String>| views(args@),
        ) + registration_for(extension@, executable@),
{
    let key = windows_context_menu_key(extension);
    let command_key = concat2(key.as_str(), "\\command");
    let command = windows_command(executable);
    let ghost before = steps@;
    let label = vec![owned("add"), owned(key.as_str()), owned("/ve"), owned("/d"), owned(CONTEXT_MENU_LABEL), owned("/f")];
    let icon = vec![owned("add"), owned(key.as_str()), owned("/v"), owned("Icon"), owned("/d"), owned(executable), owned("/f")];
    let run = vec![owned("add"), command_key, owned("/ve"), owned("/d"), command, owned("/f")];
    let ghost added = registration_for(extension@, executable@);
    assert(views(label@) =~= added[0]);
    assert(views(icon@) =~= added[1]);
    assert(views(run@) =~= added[2]);
    steps.push(label);
    steps.push(icon);
    steps.push(run);
    assert(steps@.map_values(|args: Vec<String>| views(args@)) =~= before.map_values(
        |args: Vec<String>| views(args@),
    ) + added);
}

/// The arguments of each `reg.exe` run that registers the action for the
/// program at `executable`.
pub fn windows_registration_steps(executable: &str) -> (r: Vec<Vec<String>>)
    ensures
        r@.map_values(|args: Vec<String>| views(args@)) == registration_steps(executable@),
{
    let mut steps: Vec<Vec<String>> = Vec::new();
    assert(steps@.map_values(|args: Vec<String>| views(args@)) =~= Seq::empty());
    push_registration(&mut steps, ".png", executable);
    push_registration(&mut steps, ".jpg", executable);
    push_registration(&mut steps, ".jpeg", executable);
    push_registration(&mut steps, ".webp", executable);
    push_registration(&mut steps, ".bmp", executable);
    push_registration(&mut steps, ".tif", executable);
    push_registration(&mut steps, ".tiff", executable);
    assert(steps@.map_values(|args: Vec<String>| views(args@)) =~= registration_steps(executable@));
    steps
}

/// The data directory of a Linux desktop: `XDG_DATA_HOME` when set and
/// not empty, else `~/.local/share`; an error when neither is known.
pub open spec fn data_home(xdg_data_home: Option<Seq<char>>, home: Option<Seq<char>>) -> Result<Seq<char>, ()> {
    match xdg_data_home {
        Some(d) if d.len() > 0 => Ok(d),
        _ => match home {
            Some(h) if h.len() > 0 => Ok(joined(h, ".local/share"@, '/')),
            _ => Err(()),
        },
    }
}

/// The data directory of a Linux desktop, given `XDG_DATA_HOME` and `HOME`.
pub fn linux_data_home(xdg_data_home: Option<&str>, home: Option<&str>) -> (r: Result<String, String>)
    ensures
        match data_home(crate::text::opt_str_chars(xdg_data_home), crate::text::opt_str_chars(home)) {
            Ok(d) => r matches Ok(p) && p@ == d,
            Err(_) => r matches Err(m) && m@ == "HOME is not set; cannot register file-manager integration"@,
        },
{
    if let Some(d) = xdg_data_home {
        if d.unicode_len() > 0 {
            return Ok(owned(d));
        }
    }
    if let Some(h) = home {
        if h.unicode_len() > 0 {
            return Ok(join_path(h, ".local/share", '/'));
        }
    }
    Err(owned("HOME is not set; cannot register file-manager integration"))
}

/// The KDE service-menu file under the data directory `data_home`.
pub fn linux_service_menu_path(data_home: &str) -> (r: String)
    ensures
        r@ == joined(data_home@, "kio/servicemenus/azusa-lens-ocr.desktop"@, '/'),
{
    join_path(data_home, "kio/servicemenus/azusa-lens-ocr.desktop", '/')
}

/// The desktop-entry handler file under the data directory `data_home`.
pub fn linux_desktop_handler_path(data_home: &str) -> (r: String)
    ensures
        r@ == joined(data_home@, "applications/azusa-lens-ocr.desktop"@, '/'),
{
    join_path(data_home, "applications/azusa-lens-ocr.desktop", '/')
}

/// `s` with each backslash and each double quote escaped by a backslash.
pub open spec fn exec_escaped(s: Seq<char>) -> Seq<char>
    decreases s.len(),
{
    if s.len() == 0 {
        Seq::empty()
    } else {
        let last = s.last();
        let tail = if last == '\\' {
            seq!['\\', '\\']
        } else if last == '"' {
            seq!['\\', '"']
        } else {
            seq![last]
        };
        exec_escaped(s.drop_last()) + tail
    }
}

/// `path` quoted for the `Exec` line of a desktop entry.
pub fn desktop_exec_quote(path: &str) -> (r: String)
    ensures
        r@ == seq!['"'] + exec_escaped(path@) + seq!['"'],
{
    let v = chars_of(path);
    let mut body = String::new();
    let mut i: usize = 0;
    while i < v.len()
        invariant
            i <= v@.len(),
            body@ == exec_escaped(v@.take(i as int)),
        decreases v.len() - i,
    {
        let c = v[i];
        let ghost before = body@;
        if c == '\\' {
            push_char(&mut body, '\\');
            push_char(&mut body, '\\');
        } else if c == '"' {
            push_char(&mut body, '\\');
            push_char(&mut body, '"');
        } else {
            push_char(&mut body, c);
        }
        assert(v@.take(i + 1).drop_last() =~= v@.take(i as int));
        i += 1;
        assert(body@ =~= exec_escaped(v@.take(i as int)));
    }
    assert(v@.take(v@.len() as int) =~= v@);
    let mut r = String::new();
    push_char(&mut r, '"');
    append_str(&mut r, body.as_str());
    push_char(&mut r, '"');
    assert(r@ =~= seq!['"'] + exec_escaped(path@) + seq!['"']);
    r
}

/// The image types the Linux action handles.
pub const LINUX_MIME_TYPES: &'static str = "image/png;image/jpeg;image/webp;image/bmp;image/tiff;";

/// The KDE service menu that runs `executable` (already quoted) on a file.
pub fn service_menu_contents(executable: &str) -> (r: String)
    ensures
        r@ == "[Desktop Entry]\nType=Service\nMimeType="@ + LINUX_MIME_TYPES@
            + "\nActions=AzusaLensOCR;\nX-KDE-ServiceTypes=KonqPopupMenu/Plugin\n\n[Desktop Action AzusaLensOCR]\nName="@
            + CONTEXT_MENU_LABEL@ + "\nIcon=com.azusalens.AzusaLens\nExec="@ + executable@
            + " --ocr-type document --ocr-file %f\n"@,
{
    let mut s = owned("[Desktop Entry]\nType=Service\nMimeType=");
    append_str(&mut s, LINUX_MIME_TYPES);
    append_str(&mut s, "\nActions=AzusaLensOCR;\nX-KDE-ServiceTypes=KonqPopupMenu/Plugin\n\n[Desktop Action AzusaLensOCR]\nName=");
    append_str(&mut s, CONTEXT_MENU_LABEL);
    append_str(&mut s, "\nIcon=com.azusalens.AzusaLens\nExec=");
    append_str(&mut s, executable);
    append_str(&mut s, " --ocr-type document --ocr-file %f\n");
    s
}

/// The hidden desktop entry that opens images with `executable` (already
/// quoted).
pub fn desktop_handler_contents(executable: &str) -> (r: String)
    ensures
        r@ == "[Desktop Entry]\nType=Application\nName="@ + CONTEXT_MENU_LABEL@
            + "\nComment=Recognize an image with Azusa Lens document OCR\nIcon=com.azusalens.AzusaLens\nNoDisplay=true\nTerminal=false\nExec="@
            + executable@ + " --ocr-type document --ocr-file %f\nMimeType="@ + LINUX_MIME_TYPES@
            + "\nCategories=Graphics;Utility;\n"@,
{
    let mut s = owned("[Desktop Entry]\nType=Application\nName=");
    append_str(&mut s, CONTEXT_MENU_LABEL);
    append_str(&mut s, "\nComment=Recognize an image with Azusa Lens document OCR\nIcon=com.azusalens.AzusaLens\nNoDisplay=true\nTerminal=false\nExec=");
    append_str(&mut s, executable);
    append_str(&mut s, " --ocr-type document --ocr-file %f\nMimeType=");
    append_str(&mut s, LINUX_MIME_TYPES);
    append_str(&mut s, "\nCategories=Graphics;Utility;\n");
    s
}

} // verus!
