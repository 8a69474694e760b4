//! The decision half of the image-mounter command line: argument parsing and
//! the checks that must pass before any device lookup is attempted.  Reading
//! the real process arguments and printing belong to the embedding
//! application; everything it decides from the arguments is decided here.

use vstd::prelude::*;

use crate::marshal::str_eq;

verus! {

/// A flag that supplies the device identifier.
pub open spec fn is_udid_flag(s: Seq<char>) -> bool {
    s == "-u"@ || s == "--udid"@
}

/// The flag that asks for a device listing.
pub open spec fn is_list_flag(s: Seq<char>) -> bool {
    s == "-l"@ || s == "--list"@
}

/// The flag that supplies the image type.
pub open spec fn is_imagetype_flag(s: Seq<char>) -> bool {
    s == "-t"@ || s == "--imagetype"@
}

/// The flag that asks for plist output as XML.
pub open spec fn is_xml_flag(s: Seq<char>) -> bool {
    s == "-x"@ || s == "--xml"@
}

/// The flag that asks for the usage text.
pub open spec fn is_help_flag(s: Seq<char>) -> bool {
    s == "-h"@ || s == "--help"@
}

/// The flag that asks for the tool version.
pub open spec fn is_version_flag(s: Seq<char>) -> bool {
    s == "-v"@ || s == "--version"@
}

/// What one invocation of the image-mounter tool asks for.
#[derive(Debug, PartialEq, Eq)]
pub enum CliRequest {
    /// Print usage and exit.
    Help,
    /// Print the tool version and exit.
    Version,
    /// An unrecognized flag; print it and exit.
    UnknownFlag(String),
    /// Listing devices is not offered by this tool.
    ListUnsupported,
    /// No device identifier was supplied: report it and do not look any
    /// device up.
    MissingUdid,
    /// No image path was supplied: report it and do not mount anything.
    MissingDmg,
    /// Everything needed to mount is present.
    Mount { udid: String, dmg_path: String, image_type: String, display_xml: bool },
}

/// The mathematical mirror of `CliRequest`, over character sequences.
pub enum ParsedRequest {
    Help,
    Version,
    UnknownFlag(Seq<char>),
    ListUnsupported,
    MissingUdid,
    MissingDmg,
    Mount { udid: Seq<char>, dmg_path: Seq<char>, image_type: Seq<char>, display_xml: bool },
}

/// What the scan has gathered so far.
pub struct ParseState {
    pub udid: Seq<char>,
    pub dmg_path: Seq<char>,
    pub image_type: Seq<char>,
    pub display_xml: bool,
}

/// Before any argument is read: no identifier, no path, the developer image
/// by default, no XML output.
pub open spec fn initial_state() -> ParseState {
    ParseState {
        udid: Seq::empty(),
        dmg_path: Seq::empty(),
        image_type: "Developer"@,
        display_xml: false,
    }
}

/// What a completed scan yields: the identifier is required first, then the
/// image path, and only then is a mount requested.
pub open spec fn finish(st: ParseState) -> ParsedRequest {
    if st.udid.len() == 0 {
        ParsedRequest::MissingUdid
    } else if st.dmg_path.len() == 0 {
        ParsedRequest::MissingDmg
    } else {
        ParsedRequest::Mount {
            udid: st.udid,
            dmg_path: st.dmg_path,
            image_type: st.image_type,
            display_xml: st.display_xml,
        }
    }
}

/// The sequential scan from position `i` with state `st`: a value-taking flag
/// consumes the following argument (and is ignored when it is last), `-h`,
/// `-v`, `-l` and an unrecognized flag end the scan at once, and anything
/// else is taken as the image path, the last occurrence winning.
pub open spec fn parse_from(args: Seq<Seq<char>>, i: int, st: ParseState) -> ParsedRequest
    decreases args.len() - i,
{
    if i < 0 || i >= args.len() {
        finish(st)
    } else {
        let a = args[i];
        if is_udid_flag(a) {
            if i + 1 < args.len() {
                parse_from(args, i + 2, ParseState { udid: args[i + 1], ..st })
            } else {
                parse_from(args, i + 1, st)
            }
        } else if is_list_flag(a) {
            ParsedRequest::ListUnsupported
        } else if is_imagetype_flag(a) {
            if i + 1 < args.len() {
                parse_from(args, i + 2, ParseState { image_type: args[i + 1], ..st })
            } else {
                parse_from(args, i + 1, st)
            }
        } else if is_xml_flag(a) {
            parse_from(args, i + 1, ParseState { display_xml: true, ..st })
        } else if is_help_flag(a) {
            ParsedRequest::Help
        } else if is_version_flag(a) {
            ParsedRequest::Version
        } else if a.len() > 0 && a[0] == '-' {
            ParsedRequest::UnknownFlag(a)
        } else {
            parse_from(args, i + 1, ParseState { dmg_path: a, ..st })
        }
    }
}

/// The arguments as character sequences.
pub open spec fn views_of(args: Seq<String>) -> Seq<Seq<char>> {
    args.map_values(|a: String| a@)
}

/// The whole scan, from the first argument.
pub open spec fn parse_spec(args: Seq<String>) -> ParsedRequest {
    parse_from(views_of(args), 0, initial_state())
}

/// How an executable result mirrors the specified one.
pub open spec fn corresponds(r: CliRequest, p: ParsedRequest) -> bool {
    match r {
        CliRequest::Help => p is Help,
        CliRequest::Version => p is Version,
        CliRequest::UnknownFlag(f) => p matches ParsedRequest::UnknownFlag(g) && f@ == g,
        CliRequest::ListUnsupported => p is ListUnsupported,
        CliRequest::MissingUdid => p is MissingUdid,
        CliRequest::MissingDmg => p is MissingDmg,
        CliRequest::Mount { udid, dmg_path, image_type, display_xml } => p
            matches ParsedRequest::Mount {
            udid: u,
            dmg_path: d,
            image_type: t,
            display_xml: x,
        } && udid@ == u && dmg_path@ == d && image_type@ == t && display_xml == x,
    }
}

/// Parses the tool's arguments (without the program name): the result is
/// exactly what the sequential scan `parse_spec` yields.  In particular a
/// mount is requested only when a device identifier flag was present with a
/// non-empty value and an image path was given — with no `-u`/`--udid` among
/// the arguments the result is an error report, never a mount, so no device
/// lookup can follow.
pub fn parse_args(args: Vec<String>) -> (r: CliRequest)
    ensures
        corresponds(r, parse_spec(args@)),
        match r {
            CliRequest::Mount { udid, dmg_path, image_type, display_xml } => {
                &&& exists|i: int|
                    {
                        &&& 0 <= i < args@.len() - 1
                        &&& is_udid_flag((#[trigger] args@[i])@)
                        &&& args@[i + 1]@ == udid@
                    }
                &&& exists|i: int| 0 <= i < args@.len() && (#[trigger] args@[i])@ == dmg_path@
                &&& udid@.len() > 0
                &&& dmg_path@.len() > 0
            },
            _ => true,
        },
{
    let ghost views = views_of(args@);
    let mut udid = String::new();
    let mut dmg_path = String::new();
    let mut image_type = String::from_str("Developer");
    let mut display_xml = false;
    let mut i: usize = 0;
    while i < args.len()
        invariant
            0 <= i <= args@.len(),
            views == views_of(args@),
            views.len() == args@.len(),
            forall|k: int| 0 <= k < args@.len() ==> views[k] == (#[trigger] args@[k])@,
            parse_spec(args@) == parse_from(
                views,
                i as int,
                (ParseState {
                    udid: udid@,
                    dmg_path: dmg_path@,
                    image_type: image_type@,
                    display_xml: display_xml,
                }),
            ),
            udid@.len() > 0 ==> exists|j: int|
                {
                    &&& 0 <= j < args@.len() - 1
                    &&& is_udid_flag((#[trigger] args@[j])@)
                    &&& args@[j + 1]@ == udid@
                },
            dmg_path@.len() > 0 ==> exists|j: int|
                0 <= j < args@.len() && (#[trigger] args@[j])@ == dmg_path@,
        decreases args@.len() - i,
    {
        let ghost st = ParseState {
            udid: udid@,
            dmg_path: dmg_path@,
            image_type: image_type@,
            display_xml: display_xml,
        };
        let arg = &args[i];
        proof {
            assert(views[i as int] == arg@);
        }
        if str_eq(arg.as_str(), "-u") || str_eq(arg.as_str(), "--udid") {
            if i + 1 < args.len() {
                udid = args[i + 1].clone();
                proof {
                    assert(is_udid_flag(args@[i as int]@));
                    assert(args@[i as int + 1]@ == udid@);
                    assert(parse_from(views, i as int, st) == parse_from(
                        views,
                        i as int + 2,
                        (ParseState { udid: views[i as int + 1], ..st }),
                    ));
                }
                i += 2;
            } else {
                proof {
                    assert(parse_from(views, i as int, st) == parse_from(views, i as int + 1, st));
                }
                i += 1;
            }
        } else if str_eq(arg.as_str(), "-l") || str_eq(arg.as_str(), "--list") {
            proof {
                assert(parse_from(views, i as int, st) == ParsedRequest::ListUnsupported);
            }
            return CliRequest::ListUnsupported;
        } else if str_eq(arg.as_str(), "-t") || str_eq(arg.as_str(), "--imagetype") {
            if i + 1 < args.len() {
                image_type = args[i + 1].clone();
                proof {
                    assert(parse_from(views, i as int, st) == parse_from(
                        views,
                        i as int + 2,
                        (ParseState { image_type: views[i as int + 1], ..st }),
                    ));
                }
                i += 2;
            } else {
                proof {
                    assert(parse_from(views, i as int, st) == parse_from(views, i as int + 1, st));
                }
                i += 1;
            }
        } else if str_eq(arg.as_str(), "-x") || str_eq(arg.as_str(), "--xml") {
            display_xml = true;
            proof {
                assert(parse_from(views, i as int, st) == parse_from(
                    views,
                    i as int + 1,
                    (ParseState { display_xml: true, ..st }),
                ));
            }
            i += 1;
        } else if str_eq(arg.as_str(), "-h") || str_eq(arg.as_str(), "--help") {
            proof {
                assert(parse_from(views, i as int, st) == ParsedRequest::Help);
            }
            return CliRequest::Help;
        } else if str_eq(arg.as_str(), "-v") || str_eq(arg.as_str(), "--version") {
            proof {
                assert(parse_from(views, i as int, st) == ParsedRequest::Version);
            }
            return CliRequest::Version;
        } else if arg.unicode_len() > 0 && arg.as_str().get_char(0) == '-' {
            proof {
                assert(views[i as int].len() > 0 && views[i as int][0] == '-');
                assert(parse_from(views, i as int, st) == ParsedRequest::UnknownFlag(
                    views[i as int],
                ));
            }
            return CliRequest::UnknownFlag(arg.clone());
        } else {
            dmg_path = arg.clone();
            proof {
                assert(args@[i as int]@ == dmg_path@);
                assert(!(views[i as int].len() > 0 && views[i as int][0] == '-'));
                assert(parse_from(views, i as int, st) == parse_from(
                    views,
                    i as int + 1,
                    (ParseState { dmg_path: views[i as int], ..st }),
                ));
            }
            i += 1;
        }
    }
    proof {
        assert(parse_spec(args@) == finish(
            (ParseState {
                udid: udid@,
                dmg_path: dmg_path@,
                image_type: image_type@,
                display_xml: display_xml,
            }),
        ));
    }
    if udid.unicode_len() == 0 {
        return CliRequest::MissingUdid;
    }
    if dmg_path.unicode_len() == 0 {
        return CliRequest::MissingDmg;
    }
    CliRequest::Mount { udid, dmg_path, image_type, display_xml }
}

} // verus!
