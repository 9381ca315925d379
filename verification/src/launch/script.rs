//! The script through which the game is started, and what is read from the
//! game's output.

use vstd::prelude::*;
use crate::folder::{join_path, join_path_seq};
use crate::launch::options::LaunchOptions;
use crate::platform::{path_separator_of, OsFamily};
use crate::text::{
    contains,
    has_infix,
    lower_seq,
    push_str,
    split,
    split_seq,
    string_of,
    to_ascii_lowercase,
    trim,
    trim_seq,
    views,
};

verus! {

/// The sign with which a comment line starts in a script.
pub open spec fn comment_prefix(family: OsFamily) -> Seq<char> {
    if family == OsFamily::Windows {
        "::"@
    } else {
        "#"@
    }
}

/// The command that starts the Java runtime: `java` and then each argument
/// after a blank.
pub open spec fn java_command(arguments: Seq<Seq<char>>) -> Seq<char>
    decreases arguments.len(),
{
    if arguments.len() == 0 {
        "java"@
    } else {
        java_command(arguments.drop_last()) + " "@ + arguments.last()
    }
}

/// The command that removes the unpacked native libraries.
pub open spec fn cleanup_command(family: OsFamily, native_root: Seq<char>) -> Seq<char> {
    if family == OsFamily::Windows {
        "\ndel /F /Q "@ + native_root + "\n"@
    } else {
        "\nrm -rf "@ + native_root + "\n"@
    }
}

/// The text of the launch script: on Linux the line that names the shell;
/// two comment lines; the change into the instance's directory; the user's
/// command to run before; the Java command, behind the user's wrapper where
/// there is one; the removal of the native libraries; the user's command to
/// run after.
pub open spec fn script_text(
    family: OsFamily,
    instance_root: Seq<char>,
    native_root: Seq<char>,
    execute_before_launch: Seq<char>,
    wrap_command: Seq<char>,
    execute_after_launch: Seq<char>,
    arguments: Seq<Seq<char>>,
) -> Seq<char> {
    (if family == OsFamily::Linux {
        "#!/bin/bash\n\n"@
    } else {
        Seq::<char>::empty()
    }) + comment_prefix(family) + " This file is automatically generated by Conic Launcher.\n"@
        + comment_prefix(family) + " NOTE: Don't use this file to launch game.\n\n"@ + "cd \""@
        + instance_root + "\"\n"@ + execute_before_launch + "\n"@ + (if trim_seq(
        wrap_command,
    ).len() > 0 {
        wrap_command + " "@
    } else {
        Seq::<char>::empty()
    }) + java_command(arguments) + cleanup_command(family, native_root) + execute_after_launch
        + "\n"@
}

/// Writes the launch script for a command line.
pub fn launch_script(
    os_family: OsFamily,
    instance_root: &str,
    native_root: &str,
    launch_options: &LaunchOptions,
    command_arguments: &Vec<String>,
) -> (r: String)
    ensures
        r@ == script_text(
            os_family,
            instance_root@,
            native_root@,
            launch_options.execute_before_launch@,
            launch_options.wrap_command@,
            launch_options.execute_after_launch@,
            views(command_arguments@),
        ),
{
    let mut out: Vec<char> = Vec::new();
    if os_family == OsFamily::Linux {
        push_str(&mut out, "#!/bin/bash\n\n");
    }
    let prefix: &str = if os_family == OsFamily::Windows {
        "::"
    } else {
        "#"
    };
    push_str(&mut out, prefix);
    push_str(&mut out, " This file is automatically generated by Conic Launcher.\n");
    push_str(&mut out, prefix);
    push_str(&mut out, " NOTE: Don't use this file to launch game.\n\n");
    push_str(&mut out, "cd \"");
    push_str(&mut out, instance_root);
    push_str(&mut out, "\"\n");
    push_str(&mut out, launch_options.execute_before_launch.as_str());
    push_str(&mut out, "\n");
    let wrapper = trim(launch_options.wrap_command.as_str());
    if !wrapper.as_str().is_empty() {
        push_str(&mut out, launch_options.wrap_command.as_str());
        push_str(&mut out, " ");
    }
    let ghost head = out@;
    push_str(&mut out, "java");
    let mut i: usize = 0;
    proof {
        assert(views(command_arguments@).take(0) =~= Seq::<Seq<char>>::empty());
    }
    while i < command_arguments.len()
        invariant
            i <= command_arguments.len(),
            out@ == head + java_command(views(command_arguments@).take(i as int)),
        decreases command_arguments.len() - i,
    {
        proof {
            let next = views(command_arguments@).take(i + 1);
            assert(next.drop_last() == views(command_arguments@).take(i as int));
            assert(next.last() == command_arguments@[i as int]@);
        }
        let ghost before = out@;
        push_str(&mut out, " ");
        push_str(&mut out, command_arguments[i].as_str());
        proof {
            assert(out@ =~= head + java_command(views(command_arguments@).take(i + 1)));
        }
        i += 1;
    }
    proof {
        assert(views(command_arguments@).take(command_arguments@.len() as int) == views(
            command_arguments@,
        ));
    }
    if os_family == OsFamily::Windows {
        push_str(&mut out, "\ndel /F /Q ");
    } else {
        push_str(&mut out, "\nrm -rf ");
    }
    push_str(&mut out, native_root);
    push_str(&mut out, "\n");
    push_str(&mut out, launch_options.execute_after_launch.as_str());
    push_str(&mut out, "\n");
    proof {
        assert(out@ =~= script_text(
            os_family,
            instance_root@,
            native_root@,
            launch_options.execute_before_launch@,
            launch_options.wrap_command@,
            launch_options.execute_after_launch@,
            views(command_arguments@),
        ));
    }
    string_of(&out)
}

/// The name of the launch script: a batch file on Windows, a shell script
/// elsewhere.
pub open spec fn script_name(family: OsFamily) -> Seq<char> {
    if family == OsFamily::Windows {
        "launch.bat"@
    } else {
        "launch.sh"@
    }
}

/// The file of the launch script: `.cache/launch.sh` or `.cache/launch.bat`
/// below the instance's directory.
pub fn script_path(os_family: OsFamily, instance_root: &str) -> (r: String)
    ensures
        r@ == join_path_seq(
            join_path_seq(instance_root@, ".cache"@, path_separator_of(os_family)),
            script_name(os_family),
            path_separator_of(os_family),
        ),
{
    let sep = os_family.path_separator();
    let cache = join_path(instance_root, ".cache", sep);
    let name: &str = if os_family == OsFamily::Windows {
        "launch.bat"
    } else {
        "launch.sh"
    };
    join_path(cache.as_str(), name, sep)
}

/// The shell that runs the script; none on Windows, where the script runs
/// by itself. Where a shell runs it, the script is made executable first.
pub fn script_shell(os_family: OsFamily) -> (r: Option<&'static str>)
    ensures
        match r {
            Some(shell) => os_family != OsFamily::Windows && shell@ == "bash"@,
            None => os_family == OsFamily::Windows,
        },
{
    match os_family {
        OsFamily::Windows => None,
        _ => Some("bash"),
    }
}

/// A line of the game's output shows that the game has started: it names
/// the LWJGL version, in any case of letters.
pub open spec fn shows_start(line: Seq<char>) -> bool {
    has_infix(lower_seq(line), "lwjgl version"@)
}

/// Whether a line of the game's output shows that the game has started.
pub fn is_launch_success(line: &str) -> (r: bool)
    ensures
        r == shows_start(line@),
{
    let lower = to_ascii_lowercase(line);
    contains(lower.as_str(), "lwjgl version")
}

/// The last line of `buffer` that has ended: what stands before the last
/// line break, back to the line break before it.
pub open spec fn last_line_of(buffer: Seq<char>) -> Option<Seq<char>> {
    let lines = split_seq(buffer, '\n');
    if lines.len() >= 2 {
        Some(lines[lines.len() - 2])
    } else {
        None
    }
}

/// The last complete line of the output read so far.
pub fn last_complete_line(buffer: &str) -> (r: Option<String>)
    ensures
        match r {
            Some(line) => last_line_of(buffer@) == Some(line@),
            None => last_line_of(buffer@) is None,
        },
{
    let lines = split(buffer, '\n');
    let n = lines.len();
    if n >= 2 {
        proof {
            assert(views(lines@)[n - 2] == lines@[n - 2]@);
        }
        Some(lines[n - 2].clone())
    } else {
        None
    }
}

/// A line of the game's output, with the instance it belongs to.
#[derive(Debug)]
pub struct Log {
    pub instance_id: u128,
    pub content: String,
}

/// What is made of a line of the game's output: the line is passed on as
/// it is, and it may show that the game has started.
pub fn scrape_line(instance_id: u128, line: String) -> (r: (Log, bool))
    ensures
        r.0.instance_id == instance_id,
        r.0.content == line,
        r.1 == shows_start(line@),
{
    let started = is_launch_success(line.as_str());
    (Log { instance_id, content: line }, started)
}

} // verus!
