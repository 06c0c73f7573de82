use vstd::prelude::*;
use vstd::string::{StrSliceExecFns, StringExecFns};

use crate::container::Container;
use crate::queued_container::status_label;
use crate::running_container_id::RunningContainerId;
use crate::text::{chars_to_string, str_chars};

verus! {

// The client's listing model: every entry is six display fields, filled from
// a listing entry with `-` standing in for anything absent, the command
// shortened unless the caller asked for everything, and the column widths
// computed from the longest cell of each column.

/// Commands longer than this are shortened in a listing.
pub const COMMAND_MAX_LEN: usize = 40;

/// One row of a listing, ready for display.
#[derive(Debug)]
pub struct ShowContainer {
    pub status: String,
    pub id: String,
    pub image: String,
    pub command: String,
    pub created: String,
    pub names: String,
}

/// The fields of a future `ShowContainer`, plus whether the command is shown
/// in full.
#[derive(Debug)]
pub struct ShowContainerBuilder {
    pub show_all: bool,
    pub status: String,
    pub id: String,
    pub image: String,
    pub command: String,
    pub created: String,
    pub names: String,
}

/// The given strings, concatenated in order.
pub open spec fn concat_all(ns: Seq<Seq<char>>) -> Seq<char>
    decreases ns.len(),
{
    if ns.len() == 0 {
        seq![]
    } else {
        concat_all(ns.drop_last()) + ns.last()
    }
}

/// The given strings, concatenated in order.
fn concat_strings(ns: &Vec<String>) -> (r: String)
    ensures
        r@ == concat_all(ns.deep_view()),
{
    let ghost dv = ns.deep_view();
    let mut r = String::new();
    let mut i: usize = 0;
    proof {
        assert(dv.take(0) =~= Seq::<Seq<char>>::empty());
    }
    while i < ns.len()
        invariant
            i <= dv.len(),
            dv.len() == ns@.len(),
            dv == ns.deep_view(),
            r@ =~= concat_all(dv.take(i as int)),
        decreases dv.len() - i,
    {
        r.append(ns[i].as_str());
        proof {
            assert(dv[i as int] == ns@[i as int]@);
            assert(dv.take(i + 1).drop_last() =~= dv.take(i as int));
            assert(dv.take(i + 1).last() == dv[i as int]);
        }
        i += 1;
    }
    proof {
        assert(dv.take(dv.len() as int) =~= dv);
    }
    r
}

impl Default for ShowContainerBuilder {
    /// A row of placeholders: every field `-`, command shown shortened.
    fn default() -> (r: Self)
        ensures
            r.show_all == false,
            r.status@ == "-"@,
            r.id@ == "-"@,
            r.image@ == "-"@,
            r.command@ == "-"@,
            r.created@ == "-"@,
            r.names@ == "-"@,
    {
        ShowContainerBuilder {
            show_all: false,
            status: "-".to_owned(),
            id: "-".to_owned(),
            image: "-".to_owned(),
            command: "-".to_owned(),
            created: "-".to_owned(),
            names: "-".to_owned(),
        }
    }
}

impl ShowContainerBuilder {
    /// The builder with the full-command choice set.
    pub fn show_all(self, show_all: bool) -> (r: Self)
        ensures
            r.show_all == show_all,
            r.status == self.status,
            r.id == self.id,
            r.image == self.image,
            r.command == self.command,
            r.created == self.created,
            r.names == self.names,
    {
        ShowContainerBuilder {
            show_all,
            status: self.status,
            id: self.id,
            image: self.image,
            command: self.command,
            created: self.created,
            names: self.names,
        }
    }

    /// The display row: every field as set, except that a command longer
    /// than `COMMAND_MAX_LEN` characters is cut to its first characters and
    /// an ellipsis unless the full command was asked for.
    pub fn build(self) -> (r: ShowContainer)
        ensures
            r.status == self.status,
            r.id == self.id,
            r.image == self.image,
            r.created == self.created,
            r.names == self.names,
            (self.show_all || self.command@.len() <= COMMAND_MAX_LEN) ==> r.command
                == self.command,
            (!self.show_all && self.command@.len() > COMMAND_MAX_LEN) ==> r.command@
                == self.command@.take(COMMAND_MAX_LEN - 3) + "..."@,
    {
        let mut command = self.command;
        if !self.show_all && command.as_str().unicode_len() > COMMAND_MAX_LEN {
            let chars = str_chars(command.as_str());
            let mut cut: Vec<char> = Vec::new();
            let mut i: usize = 0;
            while i < COMMAND_MAX_LEN - 3
                invariant
                    i <= COMMAND_MAX_LEN - 3,
                    chars@.len() > COMMAND_MAX_LEN,
                    cut@ =~= chars@.take(i as int),
                decreases COMMAND_MAX_LEN - 3 - i,
            {
                cut.push(chars[i]);
                proof {
                    assert(cut@ =~= chars@.take(i + 1));
                }
                i += 1;
            }
            let mut shortened = chars_to_string(&cut);
            shortened.append("...");
            proof {
                reveal_strlit("...");
            }
            command = shortened;
        }
        ShowContainer {
            status: self.status,
            id: self.id,
            image: self.image,
            command,
            created: self.created,
            names: self.names,
        }
    }

    /// The builder a listing entry fills: a running instance becomes a
    /// `Running` row taking id, image, command, creation time and names from
    /// the runtime's summary, `-` where the runtime left a field out; a
    /// pending request becomes a row labelled with its own status, carrying
    /// its id and command.
    pub fn from(container: Container) -> (r: Self)
        ensures
            r.show_all == false,
            container matches Container::Running(rc) ==> {
                let s = rc.summary_spec();
                &&& r.status@ == "Running"@
                &&& r.id@ == (match s.id {
                    Some(v) => v@,
                    None => "-"@,
                })
                &&& r.image@ == (match s.image {
                    Some(v) => v@,
                    None => "-"@,
                })
                &&& r.command@ == (match s.command {
                    Some(v) => v@,
                    None => "-"@,
                })
                &&& r.created@ == (match s.created {
                    Some(v) => v@,
                    None => "-"@,
                })
                &&& r.names@ == (match s.names {
                    Some(ns) => concat_all(ns.deep_view()),
                    None => "-"@,
                })
            },
            container matches Container::Queued(qc) ==> {
                &&& r.status@ == status_label(qc.status_spec())
                &&& r.id@ == qc.id_spec()
                &&& r.image@ == "-"@
                &&& r.command@ == qc.command_spec()
                &&& r.created@ == "-"@
                &&& r.names@ == "-"@
            },
    {
        match container {
            Container::Running(rc) => {
                let s = match rc {
                    crate::container::RunningContainer::Managed(s) => s,
                    crate::container::RunningContainer::External(s) => s,
                };
                let id = match s.id {
                    Some(v) => v,
                    None => "-".to_owned(),
                };
                let image = match s.image {
                    Some(v) => v,
                    None => "-".to_owned(),
                };
                let command = match s.command {
                    Some(v) => v,
                    None => "-".to_owned(),
                };
                let created = match s.created {
                    Some(v) => v,
                    None => "-".to_owned(),
                };
                let names = match s.names {
                    Some(ns) => concat_strings(&ns),
                    None => "-".to_owned(),
                };
                ShowContainerBuilder {
                    show_all: false,
                    status: "Running".to_owned(),
                    id,
                    image,
                    command,
                    created,
                    names,
                }
            },
            Container::Queued(qc) => ShowContainerBuilder {
                show_all: false,
                status: qc.status().as_str().to_owned(),
                id: qc.id(),
                image: "-".to_owned(),
                command: qc.command().to_owned(),
                created: "-".to_owned(),
                names: "-".to_owned(),
            },
        }
    }
}

/// The character length of display column `j` of a row.
pub open spec fn field_len(c: ShowContainer, j: int) -> nat {
    if j == 0 {
        c.status@.len()
    } else if j == 1 {
        c.id@.len()
    } else if j == 2 {
        c.image@.len()
    } else if j == 3 {
        c.command@.len()
    } else if j == 4 {
        c.created@.len()
    } else {
        c.names@.len()
    }
}

/// The character length of display column `j`'s header.
pub open spec fn header_len(j: int) -> nat {
    if j == 0 {
        "status"@.len()
    } else if j == 1 {
        "id"@.len()
    } else if j == 2 {
        "image"@.len()
    } else if j == 3 {
        "command"@.len()
    } else if j == 4 {
        "created"@.len()
    } else {
        "names"@.len()
    }
}

/// The widest cell of column `j`, the header counted in.
pub open spec fn max_field_len(cs: Seq<ShowContainer>, j: int) -> nat
    decreases cs.len(),
{
    if cs.len() == 0 {
        header_len(j)
    } else {
        let m = max_field_len(cs.drop_last(), j);
        if field_len(cs.last(), j) > m {
            field_len(cs.last(), j)
        } else {
            m
        }
    }
}

/// The column widths of a listing: for each of the first five columns, the
/// widest cell (header counted in) plus the padding; the names column gets
/// the padding alone.
pub fn get_max_lens(containers: &Vec<ShowContainer>, pad: usize) -> (r: Vec<usize>)
    requires
        pad <= usize::MAX - 7,
        forall|i: int, j: int|
            0 <= i < containers@.len() && 0 <= j < 6 ==> #[trigger] field_len(containers@[i], j)
                + pad <= usize::MAX,
    ensures
        r@.len() == 6,
        forall|j: int| 0 <= j < 5 ==> r@[j] == max_field_len(containers@, j) + pad,
        r@[5] == pad,
{
    proof {
        reveal_strlit("status");
        reveal_strlit("id");
        reveal_strlit("image");
        reveal_strlit("command");
        reveal_strlit("created");
        reveal_strlit("names");
    }
    let mut l0: usize = "status".unicode_len();
    let mut l1: usize = "id".unicode_len();
    let mut l2: usize = "image".unicode_len();
    let mut l3: usize = "command".unicode_len();
    let mut l4: usize = "created".unicode_len();
    let cs = containers;
    let ghost cv = containers@;
    let mut i: usize = 0;
    proof {
        assert(cv.take(0) =~= Seq::<ShowContainer>::empty());
    }
    while i < cs.len()
        invariant
            i <= cv.len(),
            cv == cs@,
            l0 == max_field_len(cv.take(i as int), 0),
            l1 == max_field_len(cv.take(i as int), 1),
            l2 == max_field_len(cv.take(i as int), 2),
            l3 == max_field_len(cv.take(i as int), 3),
            l4 == max_field_len(cv.take(i as int), 4),
            l0 <= usize::MAX - pad,
            l1 <= usize::MAX - pad,
            l2 <= usize::MAX - pad,
            l3 <= usize::MAX - pad,
            l4 <= usize::MAX - pad,
            forall|i2: int, j: int|
                0 <= i2 < cv.len() && 0 <= j < 6 ==> #[trigger] field_len(cv[i2], j) + pad
                    <= usize::MAX,
        decreases cv.len() - i,
    {
        proof {
            assert(cv.take(i + 1).drop_last() =~= cv.take(i as int));
            assert(cv.take(i + 1).last() == cv[i as int]);
            assert(field_len(cv[i as int], 0) + pad <= usize::MAX);
            assert(field_len(cv[i as int], 1) + pad <= usize::MAX);
            assert(field_len(cv[i as int], 2) + pad <= usize::MAX);
            assert(field_len(cv[i as int], 3) + pad <= usize::MAX);
            assert(field_len(cv[i as int], 4) + pad <= usize::MAX);
        }
        let c = &cs[i];
        let n0 = c.status.as_str().unicode_len();
        if n0 > l0 {
            l0 = n0;
        }
        let n1 = c.id.as_str().unicode_len();
        if n1 > l1 {
            l1 = n1;
        }
        let n2 = c.image.as_str().unicode_len();
        if n2 > l2 {
            l2 = n2;
        }
        let n3 = c.command.as_str().unicode_len();
        if n3 > l3 {
            l3 = n3;
        }
        let n4 = c.created.as_str().unicode_len();
        if n4 > l4 {
            l4 = n4;
        }
        i += 1;
    }
    proof {
        assert(cv.take(cv.len() as int) =~= cv);
    }
    let mut r: Vec<usize> = Vec::new();
    r.push(l0 + pad);
    r.push(l1 + pad);
    r.push(l2 + pad);
    r.push(l3 + pad);
    r.push(l4 + pad);
    r.push(pad);
    r
}

/// The display column headers, in column order.
pub fn headers() -> (r: Vec<&'static str>)
    ensures
        r@.len() == 6,
        r@[0]@ == "status"@,
        r@[1]@ == "id"@,
        r@[2]@ == "image"@,
        r@[3]@ == "command"@,
        r@[4]@ == "created"@,
        r@[5]@ == "names"@,
{
    let mut r: Vec<&'static str> = Vec::new();
    r.push("status");
    r.push("id");
    r.push("image");
    r.push("command");
    r.push("created");
    r.push("names");
    r
}

/// What the current-running query displays: the id itself, or `-` for an
/// idle system.
pub fn show_running_id(id: &Option<RunningContainerId>) -> (r: &str)
    ensures
        match id {
            Some(i) => r@ == i@,
            None => r@ == "-"@,
        },
{
    match id {
        Some(i) => i.as_ref(),
        None => "-",
    }
}

/// The client's failure surface.
#[derive(Debug)]
pub enum ClientError {
    /// The server answered with this non-success HTTP status code.
    ServerStatusError(u16),
    /// A failure outside the exchange itself.
    UnexpectedError(String),
}

/// The client application: the server port it talks to, and where its output
/// goes.
pub struct ClientApp<W> {
    pub port: u16,
    pub writer: W,
}

impl<W> ClientApp<W> {
    /// A client talking to the given port, writing to the given sink.
    pub fn new(port: u16, writer: W) -> (r: Self)
        ensures
            r.port == port,
            r.writer == writer,
    {
        ClientApp { port, writer }
    }
}

} // verus!
