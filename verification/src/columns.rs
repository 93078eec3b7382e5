//! The columns that `ps` reports, and how each is named and typed in a table.
use vstd::prelude::*;

use crate::text::{
    ascii_lower_seq, ascii_upper_seq, chars_eq, chars_of, is_ascii_text, no_ascii_upper,
    spec_ascii_lower, spec_ascii_upper, string_of, to_ascii_upper, to_lowercase, unicode_lowercase,
};

verus! {

/// How the raw text of a `ps` cell is typed.
#[derive(Clone, Copy, PartialEq, Eq, Structural, Debug)]
pub enum Cell {
    Str,
    Int,
    Float,
    /// `ps` reports RSS/VSZ in KiB.
    Kib,
    /// `[[DD-]HH:]MM:SS[.ff]` or bare seconds.
    Duration,
    /// Seconds since the process started, turned into the instant it started at.
    Started,
    State,
    Tty,
}

/// The known `ps` titles (upper case), with the column each becomes and how it is typed. They
/// cover the typed formats asked of `ps` and docker's default `-ef`
/// (UID PID PPID C STIME TTY TIME CMD).
pub open spec fn known_column(title: Seq<char>) -> Option<(Seq<char>, Cell)> {
    if title == "PID"@ {
        Some(("pid"@, Cell::Int))
    } else if title == "PPID"@ {
        Some(("ppid"@, Cell::Int))
    } else if title == "PGID"@ {
        Some(("pgid"@, Cell::Int))
    } else if title == "UID"@ {
        Some(("user"@, Cell::Str))
    } else if title == "USER"@ {
        Some(("user"@, Cell::Str))
    } else if title == "C"@ {
        Some(("cpu"@, Cell::Float))
    } else if title == "%CPU"@ {
        Some(("cpu"@, Cell::Float))
    } else if title == "%MEM"@ {
        Some(("mem"@, Cell::Float))
    } else if title == "RSS"@ {
        Some(("rss"@, Cell::Kib))
    } else if title == "VSZ"@ {
        Some(("vsz"@, Cell::Kib))
    } else if title == "NI"@ {
        Some(("nice"@, Cell::Int))
    } else if title == "NLWP"@ {
        Some(("threads"@, Cell::Int))
    } else if title == "S"@ {
        Some(("state"@, Cell::State))
    } else if title == "STAT"@ {
        Some(("state"@, Cell::State))
    } else if title == "ELAPSED"@ {
        Some(("started"@, Cell::Started))
    } else if title == "TIME"@ {
        Some(("cpu_time"@, Cell::Duration))
    } else if title == "TT"@ {
        Some(("tty"@, Cell::Tty))
    } else if title == "TTY"@ {
        Some(("tty"@, Cell::Tty))
    } else if title == "CMD"@ {
        Some(("command"@, Cell::Str))
    } else if title == "COMMAND"@ {
        Some(("command"@, Cell::Str))
    } else {
        None
    }
}

/// The column a `ps` title becomes: titles are matched without regard to ASCII case; an unknown
/// title stays a string column named by its lower-cased self.
pub open spec fn column_of(title: Seq<char>) -> (Seq<char>, Cell) {
    let up = ascii_upper_seq(title);
    match known_column(up) {
        Some(entry) => entry,
        None => (unicode_lowercase(up), Cell::Str),
    }
}

/// Looks `title` up among the known upper-case titles.
fn lookup(title: &Vec<char>) -> (r: Option<(&'static str, Cell)>)
    ensures
        match r {
            Some((col, cell)) => {
                &&& known_column(title@) == Some((col@, cell))
                &&& title@.len() > 0
                &&& col@.len() > 0
                &&& no_ascii_upper(col@)
            },
            None => known_column(title@) is None,
        },
{
    if chars_eq(title, "PID") {
        proof {
            reveal_strlit("PID");
            reveal_strlit("pid");
        }
        Some(("pid", Cell::Int))
    } else if chars_eq(title, "PPID") {
        proof {
            reveal_strlit("PPID");
            reveal_strlit("ppid");
        }
        Some(("ppid", Cell::Int))
    } else if chars_eq(title, "PGID") {
        proof {
            reveal_strlit("PGID");
            reveal_strlit("pgid");
        }
        Some(("pgid", Cell::Int))
    } else if chars_eq(title, "UID") {
        proof {
            reveal_strlit("UID");
            reveal_strlit("user");
        }
        Some(("user", Cell::Str))
    } else if chars_eq(title, "USER") {
        proof {
            reveal_strlit("USER");
            reveal_strlit("user");
        }
        Some(("user", Cell::Str))
    } else if chars_eq(title, "C") {
        proof {
            reveal_strlit("C");
            reveal_strlit("cpu");
        }
        Some(("cpu", Cell::Float))
    } else if chars_eq(title, "%CPU") {
        proof {
            reveal_strlit("%CPU");
            reveal_strlit("cpu");
        }
        Some(("cpu", Cell::Float))
    } else if chars_eq(title, "%MEM") {
        proof {
            reveal_strlit("%MEM");
            reveal_strlit("mem");
        }
        Some(("mem", Cell::Float))
    } else if chars_eq(title, "RSS") {
        proof {
            reveal_strlit("RSS");
            reveal_strlit("rss");
        }
        Some(("rss", Cell::Kib))
    } else if chars_eq(title, "VSZ") {
        proof {
            reveal_strlit("VSZ");
            reveal_strlit("vsz");
        }
        Some(("vsz", Cell::Kib))
    } else if chars_eq(title, "NI") {
        proof {
            reveal_strlit("NI");
            reveal_strlit("nice");
        }
        Some(("nice", Cell::Int))
    } else if chars_eq(title, "NLWP") {
        proof {
            reveal_strlit("NLWP");
            reveal_strlit("threads");
        }
        Some(("threads", Cell::Int))
    } else if chars_eq(title, "S") {
        proof {
            reveal_strlit("S");
            reveal_strlit("state");
        }
        Some(("state", Cell::State))
    } else if chars_eq(title, "STAT") {
        proof {
            reveal_strlit("STAT");
            reveal_strlit("state");
        }
        Some(("state", Cell::State))
    } else if chars_eq(title, "ELAPSED") {
        proof {
            reveal_strlit("ELAPSED");
            reveal_strlit("started");
        }
        Some(("started", Cell::Started))
    } else if chars_eq(title, "TIME") {
        proof {
            reveal_strlit("TIME");
            reveal_strlit("cpu_time");
        }
        Some(("cpu_time", Cell::Duration))
    } else if chars_eq(title, "TT") {
        proof {
            reveal_strlit("TT");
            reveal_strlit("tty");
        }
        Some(("tty", Cell::Tty))
    } else if chars_eq(title, "TTY") {
        proof {
            reveal_strlit("TTY");
            reveal_strlit("tty");
        }
        Some(("tty", Cell::Tty))
    } else if chars_eq(title, "CMD") {
        proof {
            reveal_strlit("CMD");
            reveal_strlit("command");
        }
        Some(("command", Cell::Str))
    } else if chars_eq(title, "COMMAND") {
        proof {
            reveal_strlit("COMMAND");
            reveal_strlit("command");
        }
        Some(("command", Cell::Str))
    } else {
        None
    }
}

/// The column name and cell type for a `ps` title.
///
/// Every column name is empty only for an empty title, and an ASCII title gives a name free of
/// upper-case letters: an unknown one is named by its ASCII-lower-cased self.
pub fn ps_column(title: &str) -> (r: (String, Cell))
    ensures
        (r.0@, r.1) == column_of(title@),
        r.0@.len() == 0 <==> title@.len() == 0,
        is_ascii_text(title@) ==> no_ascii_upper(r.0@),
        is_ascii_text(title@) && known_column(ascii_upper_seq(title@)) is None ==> r.0@
            == ascii_lower_seq(title@),
{
    let chars = chars_of(title);
    let up = to_ascii_upper(&chars);
    match lookup(&up) {
        Some((col, cell)) => {
            proof {
                assert(up@.len() == title@.len());
            }
            (String::from_str(col), cell)
        },
        None => {
            let up_str = string_of(&up);
            let name = to_lowercase(up_str.as_str());
            proof {
                if is_ascii_text(title@) {
                    assert forall|i: int| 0 <= i < up@.len() implies (#[trigger] up@[i])
                        <= '\u{7f}' by {
                        assert(up@[i] == spec_ascii_upper(title@[i]));
                    }
                    assert forall|i: int| 0 <= i < name@.len() implies !('A' <= #[trigger] name@[i]
                        && name@[i] <= 'Z') by {
                        assert(name@[i] == spec_ascii_lower(up@[i]));
                    }
                    assert forall|i: int| 0 <= i < title@.len() implies #[trigger] name@[i]
                        == spec_ascii_lower(title@[i]) by {
                        assert(name@[i] == spec_ascii_lower(up@[i]));
                        assert(up@[i] == spec_ascii_upper(title@[i]));
                    }
                    assert(name@ =~= ascii_lower_seq(title@));
                }
                if title@.len() == 0 {
                    assert(up@ =~= Seq::<char>::empty());
                    assert(is_ascii_text(up@));
                    assert(ascii_lower_seq(up@) =~= Seq::<char>::empty());
                }
            }
            (name, Cell::Str)
        },
    }
}

/// Case does not matter to the column a title becomes.
pub proof fn law_column_ignores_ascii_case(title: Seq<char>)
    ensures
        column_of(ascii_upper_seq(title)) == column_of(title),
{
    assert(ascii_upper_seq(ascii_upper_seq(title)) =~= ascii_upper_seq(title));
}

/// The known titles, in any case of their ASCII letters, name and type their columns: process,
/// parent and group IDs, nice values and thread counts are integers; `C`, `%CPU` and `%MEM` are
/// floats; `RSS` and `VSZ` are sizes in KiB; `S` and `STAT` are process states; `ELAPSED` is the
/// start instant; `TIME` is a duration; `TT` and `TTY` are terminals; `UID`, `USER`, `CMD` and
/// `COMMAND` are strings.
pub proof fn law_known_titles(title: Seq<char>)
    ensures
        ascii_upper_seq(title) == "PID"@ ==> column_of(title) == ("pid"@, Cell::Int),
        ascii_upper_seq(title) == "PPID"@ ==> column_of(title) == ("ppid"@, Cell::Int),
        ascii_upper_seq(title) == "PGID"@ ==> column_of(title) == ("pgid"@, Cell::Int),
        ascii_upper_seq(title) == "UID"@ ==> column_of(title) == ("user"@, Cell::Str),
        ascii_upper_seq(title) == "USER"@ ==> column_of(title) == ("user"@, Cell::Str),
        ascii_upper_seq(title) == "C"@ ==> column_of(title) == ("cpu"@, Cell::Float),
        ascii_upper_seq(title) == "%CPU"@ ==> column_of(title) == ("cpu"@, Cell::Float),
        ascii_upper_seq(title) == "%MEM"@ ==> column_of(title) == ("mem"@, Cell::Float),
        ascii_upper_seq(title) == "RSS"@ ==> column_of(title) == ("rss"@, Cell::Kib),
        ascii_upper_seq(title) == "VSZ"@ ==> column_of(title) == ("vsz"@, Cell::Kib),
        ascii_upper_seq(title) == "NI"@ ==> column_of(title) == ("nice"@, Cell::Int),
        ascii_upper_seq(title) == "NLWP"@ ==> column_of(title) == ("threads"@, Cell::Int),
        ascii_upper_seq(title) == "S"@ ==> column_of(title) == ("state"@, Cell::State),
        ascii_upper_seq(title) == "STAT"@ ==> column_of(title) == ("state"@, Cell::State),
        ascii_upper_seq(title) == "ELAPSED"@ ==> column_of(title) == ("started"@, Cell::Started),
        ascii_upper_seq(title) == "TIME"@ ==> column_of(title) == ("cpu_time"@, Cell::Duration),
        ascii_upper_seq(title) == "TT"@ ==> column_of(title) == ("tty"@, Cell::Tty),
        ascii_upper_seq(title) == "TTY"@ ==> column_of(title) == ("tty"@, Cell::Tty),
        ascii_upper_seq(title) == "CMD"@ ==> column_of(title) == ("command"@, Cell::Str),
        ascii_upper_seq(title) == "COMMAND"@ ==> column_of(title) == ("command"@, Cell::Str),
{
    reveal_strlit("PID");
    reveal_strlit("PPID");
    reveal_strlit("PGID");
    reveal_strlit("UID");
    reveal_strlit("USER");
    reveal_strlit("C");
    reveal_strlit("%CPU");
    reveal_strlit("%MEM");
    reveal_strlit("RSS");
    reveal_strlit("VSZ");
    reveal_strlit("NI");
    reveal_strlit("NLWP");
    reveal_strlit("S");
    reveal_strlit("STAT");
    reveal_strlit("ELAPSED");
    reveal_strlit("TIME");
    reveal_strlit("TT");
    reveal_strlit("TTY");
    reveal_strlit("CMD");
    reveal_strlit("COMMAND");
    assert("PID"@.len() == 3);
    assert("PPID"@.len() == 4);
    assert("PGID"@.len() == 4);
    assert("UID"@.len() == 3);
    assert("USER"@.len() == 4);
    assert("C"@.len() == 1);
    assert("%CPU"@.len() == 4);
    assert("%MEM"@.len() == 4);
    assert("RSS"@.len() == 3);
    assert("VSZ"@.len() == 3);
    assert("NI"@.len() == 2);
    assert("NLWP"@.len() == 4);
    assert("S"@.len() == 1);
    assert("STAT"@.len() == 4);
    assert("ELAPSED"@.len() == 7);
    assert("TIME"@.len() == 4);
    assert("TT"@.len() == 2);
    assert("TTY"@.len() == 3);
    assert("CMD"@.len() == 3);
    assert("COMMAND"@.len() == 7);
    assert("PID"@[0] != "UID"@[0]);
    assert("PID"@[0] != "RSS"@[0]);
    assert("PID"@[0] != "VSZ"@[0]);
    assert("PID"@[0] != "TTY"@[0]);
    assert("PID"@[0] != "CMD"@[0]);
    assert("PPID"@[1] != "PGID"@[1]);
    assert("PPID"@[0] != "USER"@[0]);
    assert("PPID"@[0] != "%CPU"@[0]);
    assert("PPID"@[0] != "%MEM"@[0]);
    assert("PPID"@[0] != "NLWP"@[0]);
    assert("PPID"@[0] != "STAT"@[0]);
    assert("PPID"@[0] != "TIME"@[0]);
    assert("PGID"@[0] != "USER"@[0]);
    assert("PGID"@[0] != "%CPU"@[0]);
    assert("PGID"@[0] != "%MEM"@[0]);
    assert("PGID"@[0] != "NLWP"@[0]);
    assert("PGID"@[0] != "STAT"@[0]);
    assert("PGID"@[0] != "TIME"@[0]);
    assert("UID"@[0] != "RSS"@[0]);
    assert("UID"@[0] != "VSZ"@[0]);
    assert("UID"@[0] != "TTY"@[0]);
    assert("UID"@[0] != "CMD"@[0]);
    assert("USER"@[0] != "%CPU"@[0]);
    assert("USER"@[0] != "%MEM"@[0]);
    assert("USER"@[0] != "NLWP"@[0]);
    assert("USER"@[0] != "STAT"@[0]);
    assert("USER"@[0] != "TIME"@[0]);
    assert("C"@[0] != "S"@[0]);
    assert("%CPU"@[1] != "%MEM"@[1]);
    assert("%CPU"@[0] != "NLWP"@[0]);
    assert("%CPU"@[0] != "STAT"@[0]);
    assert("%CPU"@[0] != "TIME"@[0]);
    assert("%MEM"@[0] != "NLWP"@[0]);
    assert("%MEM"@[0] != "STAT"@[0]);
    assert("%MEM"@[0] != "TIME"@[0]);
    assert("RSS"@[0] != "VSZ"@[0]);
    assert("RSS"@[0] != "TTY"@[0]);
    assert("RSS"@[0] != "CMD"@[0]);
    assert("VSZ"@[0] != "TTY"@[0]);
    assert("VSZ"@[0] != "CMD"@[0]);
    assert("NI"@[0] != "TT"@[0]);
    assert("NLWP"@[0] != "STAT"@[0]);
    assert("NLWP"@[0] != "TIME"@[0]);
    assert("STAT"@[0] != "TIME"@[0]);
    assert("ELAPSED"@[0] != "COMMAND"@[0]);
    assert("TTY"@[0] != "CMD"@[0]);
}

} // verus!
