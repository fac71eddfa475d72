use vstd::prelude::*;
use crate::paths::{
    Platform, get_dir_from_path, join_path, join_path_spec, parent_of, remove_backslash,
    remove_slash, trim_end,
};

verus! {

/// Why a destination cannot be resolved.
#[derive(Clone, Copy, PartialEq, Eq, Structural, Debug)]
pub enum ResolveError {
    /// The output token starts with the home marker but no separator
    /// follows it.
    MalformedHomePath,
    /// No home directory is known, so nothing can be resolved.
    HomeDirectoryUndetermined,
    /// The requested output lies under a directory that does not exist.
    OutputDirectoryNotFound,
    /// Media mode was asked to write to an existing non-directory.
    MediaModeConflict,
}

/// What the filesystem says of a path.
#[derive(Clone, Copy, PartialEq, Eq, Structural, Debug)]
pub enum FsNode {
    Missing,
    File,
    Dir,
}

/// Where a download finally goes, over mathematical values.
pub ghost enum Res {
    /// Write exactly here.
    DirectFile(Seq<char>),
    /// The directory exists; the final path is the name joined onto it.
    IntoDirectory(Seq<char>, Seq<char>),
    /// No directory is involved: a flat name in the working directory.
    DeriveFromBareName(Seq<char>),
    /// Media mode hands this directory to the external tool.
    MediaDirectory(Seq<char>),
    /// Resolution failed for good.
    Conflict(ResolveError),
}

/// Where a download finally goes.  Computed once from the immutable
/// intent and a filesystem snapshot, then acted on exactly once.
pub enum Resolution {
    DirectFile(String),
    IntoDirectory(String, String),
    DeriveFromBareName(String),
    MediaDirectory(String),
    Conflict(ResolveError),
}

impl View for Resolution {
    type V = Res;

    open spec fn view(&self) -> Res {
        match self {
            Resolution::DirectFile(p) => Res::DirectFile(p@),
            Resolution::IntoDirectory(d, n) => Res::IntoDirectory(d@, n@),
            Resolution::DeriveFromBareName(n) => Res::DeriveFromBareName(n@),
            Resolution::MediaDirectory(d) => Res::MediaDirectory(d@),
            Resolution::Conflict(e) => Res::Conflict(*e),
        }
    }
}

/// A directory token with its trailing separators trimmed: `/` always,
/// `\` as well on Windows.
pub open spec fn strip_dir_seps(s: Seq<char>, p: Platform) -> Seq<char> {
    if p is Windows {
        trim_end(trim_end(s, '/'), '\\')
    } else {
        trim_end(s, '/')
    }
}

/// The home expansion made before resolution: on Windows an output that
/// starts with the home marker `~` must continue with one separator and
/// is rejoined under the home directory; elsewhere the output passes
/// unchanged.  Without a known home directory nothing is resolved.
pub open spec fn spec_expand(
    output: Option<Seq<char>>,
    home: Option<Seq<char>>,
    p: Platform,
) -> Result<Option<Seq<char>>, ResolveError> {
    if home is None {
        Err(ResolveError::HomeDirectoryUndetermined)
    } else {
        match output {
            None => Ok(None),
            Some(o) => {
                if p is Windows && o.len() > 0 && o[0] == '~' {
                    let rest = o.drop_first();
                    if rest.len() > 0 && (rest[0] == '\\' || rest[0] == '/') {
                        Ok(
                            Some(
                                join_path_spec(
                                    home.unwrap(),
                                    rest.drop_first(),
                                    Platform::Windows,
                                ),
                            ),
                        )
                    } else {
                        Err(ResolveError::MalformedHomePath)
                    }
                } else {
                    Ok(Some(o))
                }
            },
        }
    }
}

/// Expands the home marker in the output token; see `spec_expand`.
pub fn expand_output(output: &Option<String>, home: &Option<String>, platform: Platform) -> (r:
    Result<Option<String>, ResolveError>)
    ensures
        ({
            let m = spec_expand(output.deep_view(), home.deep_view(), platform);
            match r {
                Ok(e) => m == Ok::<Option<Seq<char>>, ResolveError>(e.deep_view()),
                Err(er) => m == Err::<Option<Seq<char>>, ResolveError>(er),
            }
        }),
{
    match home {
        None => Err(ResolveError::HomeDirectoryUndetermined),
        Some(h) => match output {
            None => Ok(None),
            Some(o) => {
                let n: usize = o.as_str().unicode_len();
                if matches!(platform, Platform::Windows) && n > 0 && o.as_str().get_char(0)
                    == '~' {
                    if n > 1 {
                        let c1 = o.as_str().get_char(1);
                        proof {
                            assert(o@.drop_first()[0] == o@[1]);
                        }
                        if c1 == '\\' || c1 == '/' {
                            let rest = o.as_str().substring_char(2, n);
                            proof {
                                assert(o@.drop_first().drop_first() =~= o@.subrange(2, n as int));
                            }
                            Ok(Some(join_path(h.as_str(), rest, Platform::Windows)))
                        } else {
                            Err(ResolveError::MalformedHomePath)
                        }
                    } else {
                        Err(ResolveError::MalformedHomePath)
                    }
                } else {
                    Ok(Some(o.clone()))
                }
            },
        },
    }
}

/// Where the download goes, from the expanded output token, the
/// URL-derived name, the mode, and what the filesystem says of the
/// output path and of its parent directory.
///
/// An absent output goes to the working directory: under the derived
/// name, or, in media mode, as the directory `.` itself.  An existing
/// file is the target itself, unless media mode forbids it; an existing
/// directory receives the derived name, or is handed to the media tool.
/// A missing path under an existing parent names the file to create —
/// as a bare name when the parent is the working directory; any other
/// missing parent is a conflict, as is any missing path in media mode.
pub open spec fn spec_resolve(
    output: Option<Seq<char>>,
    default_name: Seq<char>,
    media: bool,
    out_node: FsNode,
    parent_node: FsNode,
    platform: Platform,
) -> Res {
    match output {
        None => if media {
            Res::MediaDirectory(seq!['.'])
        } else {
            Res::DeriveFromBareName(default_name)
        },
        Some(o) => match out_node {
            FsNode::File => if media {
                Res::Conflict(ResolveError::MediaModeConflict)
            } else {
                Res::DirectFile(o)
            },
            FsNode::Dir => {
                let d = strip_dir_seps(o, platform);
                if media {
                    Res::MediaDirectory(d)
                } else {
                    Res::IntoDirectory(d, default_name)
                }
            },
            FsNode::Missing => if media {
                Res::Conflict(ResolveError::OutputDirectoryNotFound)
            } else if parent_node is Dir {
                if parent_of(o, platform) == seq!['.'] {
                    Res::DeriveFromBareName(o)
                } else {
                    Res::DirectFile(o)
                }
            } else {
                Res::Conflict(ResolveError::OutputDirectoryNotFound)
            },
        },
    }
}

/// Resolves the destination; see `spec_resolve`.  `out_node` is what the
/// filesystem says of the expanded output path, `parent_node` what it
/// says of `get_dir_from_path` of that path; neither is read when the
/// output is absent.
pub fn resolve(
    output: &Option<String>,
    default_name: &String,
    media: bool,
    out_node: FsNode,
    parent_node: FsNode,
    platform: Platform,
) -> (r: Resolution)
    ensures
        r@ == spec_resolve(
            output.deep_view(),
            default_name@,
            media,
            out_node,
            parent_node,
            platform,
        ),
{
    match output {
        None => {
            if media {
                proof {
                    reveal_strlit(".");
                    assert("."@ =~= seq!['.']);
                }
                Resolution::MediaDirectory(String::from_str("."))
            } else {
                Resolution::DeriveFromBareName(default_name.clone())
            }
        },
        Some(o) => {
            match out_node {
                FsNode::File => {
                    if media {
                        Resolution::Conflict(ResolveError::MediaModeConflict)
                    } else {
                        Resolution::DirectFile(o.clone())
                    }
                },
                FsNode::Dir => {
                    let d1 = remove_slash(o.as_str());
                    let d = if matches!(platform, Platform::Windows) {
                        remove_backslash(d1.as_str())
                    } else {
                        d1
                    };
                    if media {
                        Resolution::MediaDirectory(d)
                    } else {
                        Resolution::IntoDirectory(d, default_name.clone())
                    }
                },
                FsNode::Missing => {
                    if media {
                        Resolution::Conflict(ResolveError::OutputDirectoryNotFound)
                    } else if matches!(parent_node, FsNode::Dir) {
                        let par = get_dir_from_path(o.as_str(), platform);
                        let dot = String::from_str(".");
                        proof {
                            reveal_strlit(".");
                            assert("."@ =~= seq!['.']);
                        }
                        if par == dot {
                            Resolution::DeriveFromBareName(o.clone())
                        } else {
                            Resolution::DirectFile(o.clone())
                        }
                    } else {
                        Resolution::Conflict(ResolveError::OutputDirectoryNotFound)
                    }
                },
            }
        },
    }
}

/// The URL-derived name is substituted exactly when the output was never
/// supplied: an absent output resolves to the derived bare name, while a
/// missing literal output under the working directory resolves to that
/// literal token unchanged.
pub proof fn lemma_default_name_substitution(
    o: Seq<char>,
    default_name: Seq<char>,
    out_node: FsNode,
    parent_node: FsNode,
    p: Platform,
)
    ensures
        spec_resolve(None, default_name, false, out_node, parent_node, p)
            == Res::DeriveFromBareName(default_name),
        parent_of(o, p) == seq!['.'] && out_node is Missing && parent_node is Dir ==> spec_resolve(
            Some(o),
            default_name,
            false,
            out_node,
            parent_node,
            p,
        ) == Res::DeriveFromBareName(o),
{
}

} // verus!

