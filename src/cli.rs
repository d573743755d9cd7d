use vstd::prelude::*;

use crate::device::{valid_device_index, ANY_DEVICE, MAX_DEVICE};
use crate::text::{append_decimal, decimal};

verus! {

/// The program's command-line options.
#[derive(Clone, Copy, Debug, PartialEq, Eq, Structural)]
pub struct Args {
    /// Accepted and carried along; nothing acts on it.
    pub disable_recognition: bool,
    /// The device to capture from: `-1` for any, else `0..=99`.
    pub video_device: i32,
    /// List the capture backends that support cameras, then exit.
    pub list_camera_backends: bool,
    /// List every backend, then exit.
    pub list_backends: bool,
}

/// A command line that was refused.
#[derive(Clone, Copy, Debug, PartialEq, Eq, Structural)]
pub enum CliError {
    VideoDeviceOutOfRange { value: i32 },
}

/// What the program does for a given command line.
#[derive(Clone, Copy, Debug, PartialEq, Eq, Structural)]
pub enum Command {
    /// Print the requested backend lists; no device is opened.
    ListBackends { camera: bool, all: bool },
    /// Capture from `device` and forward the frames.
    Run { device: i32 },
}

/// The command that `args` call for, when the device index is valid.
pub open spec fn command_of(args: Args) -> Command {
    if args.list_camera_backends || args.list_backends {
        Command::ListBackends { camera: args.list_camera_backends, all: args.list_backends }
    } else {
        Command::Run { device: args.video_device }
    }
}

impl Default for Args {
    fn default() -> (r: Args)
        ensures
            r == (Args {
                disable_recognition: false,
                video_device: 0,
                list_camera_backends: false,
                list_backends: false,
            }),
    {
        Args {
            disable_recognition: false,
            video_device: 0,
            list_camera_backends: false,
            list_backends: false,
        }
    }
}

impl Args {
    /// Checks the options; a device index outside `-1..=99` is refused
    /// before anything is opened.
    pub fn validate(&self) -> (r: Result<(), CliError>)
        ensures
            r is Ok <==> valid_device_index(self.video_device as int),
            r is Err ==> r == Err::<(), CliError>(
                CliError::VideoDeviceOutOfRange { value: self.video_device },
            ),
    {
        if self.video_device < ANY_DEVICE || self.video_device > MAX_DEVICE {
            Err(CliError::VideoDeviceOutOfRange { value: self.video_device })
        } else {
            Ok(())
        }
    }

    /// Decides what to do: list backends when either list option is given,
    /// else run the capture loop on the chosen device.
    pub fn command(&self) -> (r: Result<Command, CliError>)
        ensures
            !valid_device_index(self.video_device as int) ==> r == Err::<Command, CliError>(
                CliError::VideoDeviceOutOfRange { value: self.video_device },
            ),
            valid_device_index(self.video_device as int) ==> r == Ok::<Command, CliError>(
                command_of(*self),
            ),
    {
        match self.validate() {
            Err(e) => Err(e),
            Ok(()) => {
                if self.list_camera_backends || self.list_backends {
                    Ok(
                        Command::ListBackends {
                            camera: self.list_camera_backends,
                            all: self.list_backends,
                        },
                    )
                } else {
                    Ok(Command::Run { device: self.video_device })
                }
            },
        }
    }
}

/// The text of a refused command line.
pub open spec fn cli_error_text(e: CliError) -> Seq<char> {
    match e {
        CliError::VideoDeviceOutOfRange { value } => "invalid value "@ + decimal(value as int)
            + " for --video-device: must lie in -1..=99"@,
    }
}

impl CliError {
    /// A message for the user.
    pub fn message(&self) -> (r: String)
        ensures
            r@ == cli_error_text(*self),
    {
        match self {
            CliError::VideoDeviceOutOfRange { value } => {
                let mut s = String::from_str("invalid value ");
                append_decimal(&mut s, *value as i64);
                s.append(" for --video-device: must lie in -1..=99");
                s
            },
        }
    }
}

/// Which backends a listing shows.
#[derive(Clone, Copy, Debug, PartialEq, Eq, Structural)]
pub enum BackendList {
    Camera,
    All,
}

pub open spec fn heading_text(list: BackendList) -> Seq<char> {
    match list {
        BackendList::Camera => "Availabe Camera Backends"@,
        BackendList::All => "All Backends"@,
    }
}

/// One line per backend name, each indented by a tab.
pub open spec fn name_lines(names: Seq<Seq<char>>) -> Seq<char>
    decreases names.len(),
{
    if names.len() == 0 {
        Seq::empty()
    } else {
        name_lines(names.drop_last()) + "\t"@ + names.last() + "\n"@
    }
}

/// A listing: heading, a rule, the names, and a blank line.
pub open spec fn listing_text(list: BackendList, names: Seq<Seq<char>>) -> Seq<char> {
    heading_text(list) + "\n----------\n"@ + name_lines(names) + "\n"@
}

/// The character sequences of some strings.
pub open spec fn views_of(names: Seq<String>) -> Seq<Seq<char>> {
    names.map_values(|s: String| s@)
}

/// The lists that a `ListBackends` command prints, camera backends first.
pub fn lists_to_print(camera: bool, all: bool) -> (r: Vec<BackendList>)
    ensures
        r@ == (if camera {
            seq![BackendList::Camera]
        } else {
            Seq::empty()
        }) + (if all {
            seq![BackendList::All]
        } else {
            Seq::empty()
        }),
{
    let mut r: Vec<BackendList> = Vec::new();
    if camera {
        r.push(BackendList::Camera);
    }
    if all {
        r.push(BackendList::All);
    }
    proof {
        assert(r@ =~= (if camera {
            seq![BackendList::Camera]
        } else {
            Seq::empty()
        }) + (if all {
            seq![BackendList::All]
        } else {
            Seq::empty()
        }));
    }
    r
}

/// The opening of a listing: its heading and a rule, each on a line.
pub fn listing_heading(list: BackendList) -> (r: String)
    ensures
        r@ == heading_text(list) + "\n----------\n"@,
{
    let mut s = match list {
        BackendList::Camera => String::from_str("Availabe Camera Backends"),
        BackendList::All => String::from_str("All Backends"),
    };
    s.append("\n----------\n");
    s
}

/// The line of a listing that names one backend.
pub fn listing_entry(name: &str) -> (r: String)
    ensures
        r@ == "\t"@ + name@ + "\n"@,
{
    let mut s = String::from_str("\t");
    s.append(name);
    s.append("\n");
    s
}

/// The text that lists backends by name under the heading of `list`: the
/// heading, one entry per name, and a closing blank line.
pub fn backend_listing(list: BackendList, names: &Vec<String>) -> (r: String)
    ensures
        r@ == listing_text(list, views_of(names@)),
{
    let mut s = listing_heading(list);
    let ghost head = s@;
    let mut i: usize = 0;
    while i < names.len()
        invariant
            i <= names@.len(),
            head == heading_text(list) + "\n----------\n"@,
            s@ == head + name_lines(views_of(names@).take(i as int)),
        decreases names@.len() - i,
    {
        let entry = listing_entry(names[i].as_str());
        s.append(entry.as_str());
        proof {
            let v = views_of(names@);
            assert(v.take(i + 1).drop_last() =~= v.take(i as int));
            assert(s@ =~= head + name_lines(v.take(i + 1)));
        }
        i = i + 1;
    }
    s.append("\n");
    proof {
        assert(views_of(names@).take(i as int) =~= views_of(names@));
        assert(s@ =~= listing_text(list, views_of(names@)));
    }
    s
}

/// A listing always starts with its heading, so it is never empty.
pub proof fn lemma_listing_has_heading(list: BackendList, names: Seq<Seq<char>>)
    ensures
        listing_text(list, names).len() > 0,
        listing_text(list, names).take(heading_text(list).len() as int) == heading_text(list),
{
    reveal_strlit("Availabe Camera Backends");
    reveal_strlit("All Backends");
    assert(listing_text(list, names).take(heading_text(list).len() as int) =~= heading_text(
        list,
    ));
}

/// A command line that asks for a listing never leads to running the
/// capture loop, so no device is opened.
pub proof fn lemma_listing_opens_no_device(args: Args)
    requires
        args.list_camera_backends || args.list_backends,
    ensures
        command_of(args) !is Run,
{
}

} // verus!
