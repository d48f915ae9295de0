//! The disk inventory: from the rows that the block device listing gives,
//! to the disks that can take an installation.

use vstd::prelude::*;
use vstd::string::StringExecFns;
use crate::command::{
    command, push_text, CommandError, CommandExecutor, CommandOutcome, CommandSpec,
    CommandSpecView,
};
use crate::state::{DiskIdentifier, DiskIdentifierView};
use crate::text::{blank, is_blank};

verus! {

/// One row of the block device listing.
#[derive(Debug)]
pub struct BlockDevice {
    pub name: String,
    pub size: u64,
    pub model: Option<String>,
    pub kind: String,
}

/// A row of the listing, as the contracts see it.
pub struct BlockDeviceView {
    pub name: Seq<char>,
    pub size: u64,
    pub model: Option<Seq<char>>,
    pub kind: Seq<char>,
}

impl View for BlockDevice {
    type V = BlockDeviceView;

    open spec fn view(&self) -> BlockDeviceView {
        BlockDeviceView {
            name: self.name@,
            size: self.size,
            model: match self.model {
                Some(model) => Some(model@),
                None => None,
            },
            kind: self.kind@,
        }
    }
}

impl DeepView for BlockDevice {
    type V = BlockDeviceView;

    open spec fn deep_view(&self) -> BlockDeviceView {
        self.view()
    }
}

/// The command that lists the block devices: whole devices only, sizes in
/// bytes, as JSON with the columns NAME, SIZE, MODEL and TYPE.
pub open spec fn listing_command() -> CommandSpecView {
    command("lsblk"@, seq!["--json"@, "--bytes"@, "-d"@, "-o"@, "NAME,SIZE,MODEL,TYPE"@])
}

/// A row that stands for a whole disk.
pub open spec fn is_disk(row: BlockDeviceView) -> bool {
    row.kind == "disk"@
}

/// The disk that a row stands for. Its label is the model, unless that is
/// missing or blank.
pub open spec fn disk_of(row: BlockDeviceView) -> DiskIdentifierView {
    DiskIdentifierView {
        path: "/dev/"@ + row.name,
        size_bytes: row.size,
        label: match row.model {
            Some(model) => if is_blank(model) {
                None
            } else {
                Some(model)
            },
            None => None,
        },
    }
}

/// The disks among `rows`, in the order of the listing.
pub open spec fn whole_disks(rows: Seq<BlockDeviceView>) -> Seq<DiskIdentifierView> {
    rows.filter(|row: BlockDeviceView| is_disk(row)).map_values(
        |row: BlockDeviceView| disk_of(row),
    )
}

/// The command that lists the block devices.
pub fn lsblk_command() -> (spec: CommandSpec)
    ensures
        spec@ == listing_command(),
{
    let mut args: Vec<String> = Vec::new();
    push_text(&mut args, "--json");
    push_text(&mut args, "--bytes");
    push_text(&mut args, "-d");
    push_text(&mut args, "-o");
    push_text(&mut args, "NAME,SIZE,MODEL,TYPE");
    assert(args.deep_view() =~= seq![
        "--json"@,
        "--bytes"@,
        "-d"@,
        "-o"@,
        "NAME,SIZE,MODEL,TYPE"@,
    ]);
    CommandSpec::new("lsblk", args)
}

/// Picks the whole disks from the rows of a listing.
pub fn disks_from_devices(rows: Vec<BlockDevice>) -> (disks: Vec<DiskIdentifier>)
    ensures
        disks.deep_view() == whole_disks(rows.deep_view()),
{
    let ghost wanted = |row: BlockDeviceView| is_disk(row);
    let ghost made = |row: BlockDeviceView| disk_of(row);
    let disk_kind = String::from_str("disk");
    let mut disks: Vec<DiskIdentifier> = Vec::new();
    let mut rows = rows;
    let ghost all = rows.deep_view();
    let count: usize = rows.len();
    let mut i: usize = 0;
    proof {
        reveal(Seq::filter);
    }
    while i < count
        invariant
            i <= count,
            count == rows.len(),
            all == rows.deep_view(),
            disk_kind@ == "disk"@,
            wanted == |row: BlockDeviceView| is_disk(row),
            made == |row: BlockDeviceView| disk_of(row),
            disks.deep_view() == all.take(i as int).filter(wanted).map_values(made),
        decreases count - i,
    {
        let ghost done = all.take(i as int);
        let ghost next = all.take(i + 1);
        proof {
            reveal(Seq::filter);
            assert(next.drop_last() =~= done);
        }
        let row = &rows[i];
        if row.kind == disk_kind {
            let label: Option<String> = match &row.model {
                Some(model) => if blank(model.as_str()) {
                    None
                } else {
                    Some(model.clone())
                },
                None => None,
            };
            let disk = DiskIdentifier {
                path: String::from_str("/dev/").concat(row.name.as_str()),
                size_bytes: row.size,
                label,
            };
            disks.push(disk);
            assert(next.filter(wanted).map_values(made) =~= done.filter(wanted).map_values(
                made,
            ).push(disk_of(row@)));
        }
        i = i + 1;
    }
    assert(all.take(count as int) =~= all);
    disks
}

/// Why the disks could not be listed.
#[derive(Debug)]
pub enum ProbeError {
    /// The listing tool could not be run.
    Command(CommandError),
    /// What the listing tool printed is no listing.
    Parse(String),
}

/// Lists the disks that can take an installation: runs the listing tool
/// through `executor`, has `decode` read what it printed, and picks the
/// whole disks from the rows. Any failure on the way is handed on, and no
/// disk with it.
pub fn probe_block_devices_with<
    E: CommandExecutor,
    D: Fn(&String) -> Result<Vec<BlockDevice>, String>,
>(executor: &E, decode: D) -> (res: Result<Vec<DiskIdentifier>, ProbeError>)
    requires
        forall|printed: &String| call_requires(decode, (printed,)),
    ensures
        exists|asked: CommandSpec, answer: CommandOutcome|
            {
                &&& asked@ == listing_command()
                &&& #[trigger] call_ensures(E::run, (executor, &asked), answer)
                &&& match answer {
                    Err(error) => res matches Err(ProbeError::Command(given)) && given@ == error@,
                    Ok(output) => exists|decoded: Result<Vec<BlockDevice>, String>|
                        {
                            &&& #[trigger] call_ensures(decode, (&output.stdout,), decoded)
                            &&& match decoded {
                                Err(reason) => res matches Err(ProbeError::Parse(given)) && given@
                                    == reason@,
                                Ok(rows) => res matches Ok(disks) && disks.deep_view()
                                    == whole_disks(rows.deep_view()),
                            }
                        },
                }
            },
{
    let spec = lsblk_command();
    let answer = executor.run(&spec);
    match answer {
        Err(error) => Err(ProbeError::Command(error)),
        Ok(output) => {
            let decoded = decode(&output.stdout);
            match decoded {
                Err(reason) => Err(ProbeError::Parse(reason)),
                Ok(rows) => Ok(disks_from_devices(rows)),
            }
        },
    }
}

} // verus!
