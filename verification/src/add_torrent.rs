//! The Add-Torrent error taxonomy.
//!
//! The daemon reports torrent-add failures as one free-text message. The
//! message follows a small fixed grammar: a handful of literal templates,
//! two of which carry a 40-character hexadecimal torrent identifier and
//! three of which carry a free-text remainder. Matching is first-match-wins
//! over the templates, with a catch-all variant that preserves the full
//! message, so an unrecognized wording is never a failure.

use vstd::prelude::*;
use crate::hash::{InfoHash, all_hex_digits, parse_hex, render_hex, lemma_parse_render_hex};
use crate::text::{has_prefix, strip_prefix_str, str_eq};

verus! {

/// A recognized torrent-add failure.
#[derive(Debug, PartialEq, Eq)]
pub enum AddTorrentError {
    /// The torrent with this identifier is already part of the session.
    AlreadyInSession(InfoHash),
    /// The torrent with this identifier is already being added.
    AlreadyBeingAdded(InfoHash),
    /// The supplied magnet link was invalid; carries the daemon's detail text.
    UnableToAddMagnet(String),
    /// No valid torrent info, state or magnet was supplied.
    MustSpecifyValidTorrent,
    /// The torrent file contents could not be decoded; carries the detail text.
    DecodingFiledumpFailed(String),
    /// The session refused the torrent; carries the detail text.
    UnableToAddToSession(String),
    /// Any other message, preserved in full.
    Other(String),
}

/// Mathematical shape of an [`AddTorrentError`]: identifiers as byte
/// sequences, texts as character sequences.
pub enum AddTorrentErrorView {
    AlreadyInSession(Seq<u8>),
    AlreadyBeingAdded(Seq<u8>),
    UnableToAddMagnet(Seq<char>),
    MustSpecifyValidTorrent,
    DecodingFiledumpFailed(Seq<char>),
    UnableToAddToSession(Seq<char>),
    Other(Seq<char>),
}

impl View for AddTorrentError {
    type V = AddTorrentErrorView;

    open spec fn view(&self) -> AddTorrentErrorView {
        match self {
            AddTorrentError::AlreadyInSession(h) => AddTorrentErrorView::AlreadyInSession(h@),
            AddTorrentError::AlreadyBeingAdded(h) => AddTorrentErrorView::AlreadyBeingAdded(h@),
            AddTorrentError::UnableToAddMagnet(t) => AddTorrentErrorView::UnableToAddMagnet(t@),
            AddTorrentError::MustSpecifyValidTorrent => AddTorrentErrorView::MustSpecifyValidTorrent,
            AddTorrentError::DecodingFiledumpFailed(t) => AddTorrentErrorView::DecodingFiledumpFailed(t@),
            AddTorrentError::UnableToAddToSession(t) => AddTorrentErrorView::UnableToAddToSession(t@),
            AddTorrentError::Other(t) => AddTorrentErrorView::Other(t@),
        }
    }
}

/// Well-formedness of the view: a carried identifier holds exactly 20 bytes.
pub open spec fn view_wf(e: AddTorrentErrorView) -> bool {
    match e {
        AddTorrentErrorView::AlreadyInSession(b) => b.len() == 20,
        AddTorrentErrorView::AlreadyBeingAdded(b) => b.len() == 20,
        _ => true,
    }
}

/// Template prefix of the already-in-session message.
pub open spec fn prefix_in_session() -> Seq<char> {
    "Torrent already in session ("@
}

/// Template prefix of the already-being-added message.
pub open spec fn prefix_being_added() -> Seq<char> {
    "Torrent already being added ("@
}

/// Template prefix of the invalid-magnet message.
pub open spec fn prefix_magnet() -> Seq<char> {
    "Unable to add magnet, invalid magnet info: "@
}

/// The exact no-valid-torrent message.
pub open spec fn msg_must_specify() -> Seq<char> {
    "You must specify a valid torrent_info, torrent state or magnet."@
}

/// Template prefix of the filedump-decoding message.
pub open spec fn prefix_filedump() -> Seq<char> {
    "Unable to add torrent, decoding filedump failed: "@
}

/// Template prefix of the refused-by-session message.
pub open spec fn prefix_session() -> Seq<char> {
    "Unable to add torrent to session: "@
}

/// The identifier characters of a hash-carrying message: the 40 characters
/// that follow the template prefix `p`.
pub open spec fn hash_part(s: Seq<char>, p: Seq<char>) -> Seq<char> {
    s.subrange(p.len() as int, p.len() as int + 40)
}

/// Whether `s` is exactly the template `p`, then 40 hexadecimal digits,
/// then a closing parenthesis and a period.
pub open spec fn hash_message_matches(s: Seq<char>, p: Seq<char>) -> bool {
    &&& s.len() == p.len() + 42
    &&& p.is_prefix_of(s)
    &&& all_hex_digits(hash_part(s, p))
    &&& s[p.len() as int + 40] == ')'
    &&& s[p.len() as int + 41] == '.'
}

/// The variant denoted by the message text `s`: the templates are tried in
/// a fixed order and the first match wins; anything unrecognized is
/// preserved whole in the catch-all.
pub open spec fn message_error(s: Seq<char>) -> AddTorrentErrorView {
    if hash_message_matches(s, prefix_in_session()) {
        AddTorrentErrorView::AlreadyInSession(parse_hex(hash_part(s, prefix_in_session())))
    } else if hash_message_matches(s, prefix_being_added()) {
        AddTorrentErrorView::AlreadyBeingAdded(parse_hex(hash_part(s, prefix_being_added())))
    } else if prefix_magnet().is_prefix_of(s) {
        AddTorrentErrorView::UnableToAddMagnet(s.skip(prefix_magnet().len() as int))
    } else if s == msg_must_specify() {
        AddTorrentErrorView::MustSpecifyValidTorrent
    } else if prefix_filedump().is_prefix_of(s) {
        AddTorrentErrorView::DecodingFiledumpFailed(s.skip(prefix_filedump().len() as int))
    } else if prefix_session().is_prefix_of(s) {
        AddTorrentErrorView::UnableToAddToSession(s.skip(prefix_session().len() as int))
    } else {
        AddTorrentErrorView::Other(s)
    }
}

/// Match one hash-carrying template: the prefix `p`, then 40 hexadecimal
/// digits, then a closing parenthesis and a period.
fn match_hash_message(msg: &str, p: &str) -> (r: Option<InfoHash>)
    ensures
        r is Some <==> hash_message_matches(msg@, p@),
        r matches Some(h) ==> h.wf() && h@ == parse_hex(hash_part(msg@, p@)),
{
    let n: usize = p.unicode_len();
    let m: usize = msg.unicode_len();
    if m < 42 || m - 42 != n {
        return None;
    }
    if !has_prefix(msg, p) {
        return None;
    }
    if msg.get_char(n + 40) != ')' {
        return None;
    }
    if msg.get_char(n + 41) != '.' {
        return None;
    }
    let hex = msg.substring_char(n, n + 40);
    proof {
        assert(hex@ =~= hash_part(msg@, p@));
    }
    match InfoHash::from_hex(hex) {
        Some(h) => Some(h),
        None => None,
    }
}

impl AddTorrentError {
    /// Well-formedness: a carried identifier holds exactly 20 bytes.
    pub open spec fn wf(&self) -> bool {
        view_wf(self@)
    }

    /// Classify one daemon message.
    ///
    /// The templates are tried in the documented order; the first match
    /// wins, and an unrecognized message lands in [`AddTorrentError::Other`]
    /// unchanged rather than failing.
    pub fn from_message(msg: &str) -> (r: AddTorrentError)
        ensures
            r@ == message_error(msg@),
            r.wf(),
    {
        if let Some(h) = match_hash_message(msg, "Torrent already in session (") {
            return AddTorrentError::AlreadyInSession(h);
        }
        if let Some(h) = match_hash_message(msg, "Torrent already being added (") {
            return AddTorrentError::AlreadyBeingAdded(h);
        }
        if let Some(rest) = strip_prefix_str(msg, "Unable to add magnet, invalid magnet info: ") {
            return AddTorrentError::UnableToAddMagnet(rest);
        }
        if str_eq(msg, "You must specify a valid torrent_info, torrent state or magnet.") {
            return AddTorrentError::MustSpecifyValidTorrent;
        }
        if let Some(rest) = strip_prefix_str(msg, "Unable to add torrent, decoding filedump failed: ") {
            return AddTorrentError::DecodingFiledumpFailed(rest);
        }
        if let Some(rest) = strip_prefix_str(msg, "Unable to add torrent to session: ") {
            return AddTorrentError::UnableToAddToSession(rest);
        }
        AddTorrentError::Other(String::from_str(msg))
    }

    /// Reconstruct the daemon's literal message for this variant, or nothing
    /// for the catch-all, whose text is kept verbatim in the variant itself.
    pub fn to_daemon_message(&self) -> (r: Option<String>)
        requires
            self.wf(),
        ensures
            r is Some <==> !(self@ is Other),
            r matches Some(s) ==> s@ == render_message(self@),
    {
        proof {
            reveal_strlit(").");
        }
        match self {
            AddTorrentError::AlreadyInSession(h) => {
                let mut s = String::from_str("Torrent already in session (");
                let hx = h.to_hex();
                s.append(hx.as_str());
                s.append(").");
                proof {
                    assert(s@ =~= render_message(self@));
                }
                Some(s)
            },
            AddTorrentError::AlreadyBeingAdded(h) => {
                let mut s = String::from_str("Torrent already being added (");
                let hx = h.to_hex();
                s.append(hx.as_str());
                s.append(").");
                proof {
                    assert(s@ =~= render_message(self@));
                }
                Some(s)
            },
            AddTorrentError::UnableToAddMagnet(t) => {
                let mut s = String::from_str("Unable to add magnet, invalid magnet info: ");
                s.append(t.as_str());
                Some(s)
            },
            AddTorrentError::MustSpecifyValidTorrent => {
                Some(String::from_str("You must specify a valid torrent_info, torrent state or magnet."))
            },
            AddTorrentError::DecodingFiledumpFailed(t) => {
                let mut s = String::from_str("Unable to add torrent, decoding filedump failed: ");
                s.append(t.as_str());
                Some(s)
            },
            AddTorrentError::UnableToAddToSession(t) => {
                let mut s = String::from_str("Unable to add torrent to session: ");
                s.append(t.as_str());
                Some(s)
            },
            AddTorrentError::Other(_) => None,
        }
    }

    /// Human-readable description of the failure.
    pub fn display_string(&self) -> (r: String)
        requires
            self.wf(),
        ensures
            r@ == display_of(self@),
    {
        match self {
            AddTorrentError::AlreadyInSession(h) => {
                let mut s = String::from_str("Torrent already in session: ");
                let hx = h.to_hex();
                s.append(hx.as_str());
                s
            },
            AddTorrentError::AlreadyBeingAdded(h) => {
                let mut s = String::from_str("Torrent already being added: ");
                let hx = h.to_hex();
                s.append(hx.as_str());
                s
            },
            AddTorrentError::UnableToAddMagnet(t) => {
                let mut s = String::from_str("Invalid magnet info: ");
                s.append(t.as_str());
                s
            },
            AddTorrentError::MustSpecifyValidTorrent => {
                String::from_str("Must specify a valid torrent")
            },
            AddTorrentError::DecodingFiledumpFailed(t) => {
                let mut s = String::from_str("Decoding filedump failed: ");
                s.append(t.as_str());
                s
            },
            AddTorrentError::UnableToAddToSession(t) => {
                let mut s = String::from_str("Unable to add torrent to session: ");
                s.append(t.as_str());
                s
            },
            AddTorrentError::Other(t) => {
                String::from_str(t.as_str())
            },
        }
    }
}

/// The display text of an Add-Torrent failure.
pub open spec fn display_of(e: AddTorrentErrorView) -> Seq<char> {
    match e {
        AddTorrentErrorView::AlreadyInSession(b) => "Torrent already in session: "@ + render_hex(b),
        AddTorrentErrorView::AlreadyBeingAdded(b) => "Torrent already being added: "@ + render_hex(b),
        AddTorrentErrorView::UnableToAddMagnet(t) => "Invalid magnet info: "@ + t,
        AddTorrentErrorView::MustSpecifyValidTorrent => "Must specify a valid torrent"@,
        AddTorrentErrorView::DecodingFiledumpFailed(t) => "Decoding filedump failed: "@ + t,
        AddTorrentErrorView::UnableToAddToSession(t) => "Unable to add torrent to session: "@ + t,
        AddTorrentErrorView::Other(t) => t,
    }
}

/// The daemon's literal message for a recognized variant; for the
/// catch-all, the preserved text itself.
pub open spec fn render_message(e: AddTorrentErrorView) -> Seq<char> {
    match e {
        AddTorrentErrorView::AlreadyInSession(b) => prefix_in_session() + render_hex(b) + seq![')', '.'],
        AddTorrentErrorView::AlreadyBeingAdded(b) => prefix_being_added() + render_hex(b) + seq![')', '.'],
        AddTorrentErrorView::UnableToAddMagnet(t) => prefix_magnet() + t,
        AddTorrentErrorView::MustSpecifyValidTorrent => msg_must_specify(),
        AddTorrentErrorView::DecodingFiledumpFailed(t) => prefix_filedump() + t,
        AddTorrentErrorView::UnableToAddToSession(t) => prefix_session() + t,
        AddTorrentErrorView::Other(t) => t,
    }
}

/// Stability of the message grammar: for every variant other than the
/// catch-all, rendering the documented literal message and classifying it
/// again yields the same variant, whatever the carried payload.
pub proof fn lemma_message_round_trip(e: AddTorrentErrorView)
    requires
        view_wf(e),
        !(e is Other),
    ensures
        message_error(render_message(e)) == e,
{
    reveal_strlit("Torrent already in session (");
    reveal_strlit("Torrent already being added (");
    reveal_strlit("Unable to add magnet, invalid magnet info: ");
    reveal_strlit("You must specify a valid torrent_info, torrent state or magnet.");
    reveal_strlit("Unable to add torrent, decoding filedump failed: ");
    reveal_strlit("Unable to add torrent to session: ");
    let p1 = prefix_in_session();
    let p2 = prefix_being_added();
    let p3 = prefix_magnet();
    let p4 = msg_must_specify();
    let p5 = prefix_filedump();
    let p6 = prefix_session();
    let s = render_message(e);
    match e {
        AddTorrentErrorView::AlreadyInSession(b) => {
            lemma_parse_render_hex(b);
            assert(p1.is_prefix_of(s)) by {
                assert(p1 =~= s.subrange(0, p1.len() as int));
            }
            assert(hash_part(s, p1) =~= render_hex(b));
            assert(s[p1.len() as int + 40] == ')');
            assert(s[p1.len() as int + 41] == '.');
            assert(hash_message_matches(s, p1));
            assert(parse_hex(hash_part(s, p1)) == b);
        },
        AddTorrentErrorView::AlreadyBeingAdded(b) => {
            lemma_parse_render_hex(b);
            assert(s.len() == p2.len() + 42);
            assert(!hash_message_matches(s, p1));
            assert(p2.is_prefix_of(s)) by {
                assert(p2 =~= s.subrange(0, p2.len() as int));
            }
            assert(hash_part(s, p2) =~= render_hex(b));
            assert(s[p2.len() as int + 40] == ')');
            assert(s[p2.len() as int + 41] == '.');
            assert(hash_message_matches(s, p2));
            assert(parse_hex(hash_part(s, p2)) == b);
        },
        AddTorrentErrorView::UnableToAddMagnet(t) => {
            assert(s[0] == 'U');
            assert(!p1.is_prefix_of(s)) by {
                if p1.is_prefix_of(s) {
                    assert(s.subrange(0, p1.len() as int)[0] == s[0]);
                }
            }
            assert(!p2.is_prefix_of(s)) by {
                if p2.is_prefix_of(s) {
                    assert(s.subrange(0, p2.len() as int)[0] == s[0]);
                }
            }
            assert(p3.is_prefix_of(s)) by {
                assert(p3 =~= s.subrange(0, p3.len() as int));
            }
            assert(s.skip(p3.len() as int) =~= t);
        },
        AddTorrentErrorView::MustSpecifyValidTorrent => {
            assert(s[0] == 'Y');
            assert(!p1.is_prefix_of(s)) by {
                if p1.is_prefix_of(s) {
                    assert(s.subrange(0, p1.len() as int)[0] == s[0]);
                }
            }
            assert(!p2.is_prefix_of(s)) by {
                if p2.is_prefix_of(s) {
                    assert(s.subrange(0, p2.len() as int)[0] == s[0]);
                }
            }
            assert(!p3.is_prefix_of(s)) by {
                if p3.is_prefix_of(s) {
                    assert(s.subrange(0, p3.len() as int)[0] == s[0]);
                }
            }
            assert(s == p4);
        },
        AddTorrentErrorView::DecodingFiledumpFailed(t) => {
            assert(s[0] == 'U');
            assert(s[14] == 't');
            assert(!p1.is_prefix_of(s)) by {
                if p1.is_prefix_of(s) {
                    assert(s.subrange(0, p1.len() as int)[0] == s[0]);
                }
            }
            assert(!p2.is_prefix_of(s)) by {
                if p2.is_prefix_of(s) {
                    assert(s.subrange(0, p2.len() as int)[0] == s[0]);
                }
            }
            assert(!p3.is_prefix_of(s)) by {
                if p3.is_prefix_of(s) {
                    assert(s.subrange(0, p3.len() as int)[14] == s[14]);
                }
            }
            assert(s != p4) by {
                assert(s[0] != p4[0]);
            }
            assert(p5.is_prefix_of(s)) by {
                assert(p5 =~= s.subrange(0, p5.len() as int));
            }
            assert(s.skip(p5.len() as int) =~= t);
        },
        AddTorrentErrorView::UnableToAddToSession(t) => {
            assert(s[0] == 'U');
            assert(s[14] == 't');
            assert(s[21] == ' ');
            assert(!p1.is_prefix_of(s)) by {
                if p1.is_prefix_of(s) {
                    assert(s.subrange(0, p1.len() as int)[0] == s[0]);
                }
            }
            assert(!p2.is_prefix_of(s)) by {
                if p2.is_prefix_of(s) {
                    assert(s.subrange(0, p2.len() as int)[0] == s[0]);
                }
            }
            assert(!p3.is_prefix_of(s)) by {
                if p3.is_prefix_of(s) {
                    assert(s.subrange(0, p3.len() as int)[14] == s[14]);
                }
            }
            assert(s != p4) by {
                assert(s[0] != p4[0]);
            }
            assert(!p5.is_prefix_of(s)) by {
                if p5.is_prefix_of(s) {
                    assert(s.subrange(0, p5.len() as int)[21] == s[21]);
                }
            }
            assert(p6.is_prefix_of(s)) by {
                assert(p6 =~= s.subrange(0, p6.len() as int));
            }
            assert(s.skip(p6.len() as int) =~= t);
        },
        AddTorrentErrorView::Other(_) => {},
    }
}

} // verus!
