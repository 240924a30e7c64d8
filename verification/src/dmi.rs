//! What the firmware tells of the machine.

use vstd::prelude::*;

use crate::text::{concat, lossy_text, to_lossy_text};

verus! {

/// What the firmware tells of the machine, the board and the BIOS.
#[derive(Debug, Default, PartialEq, Eq, PartialOrd, Clone)]
pub struct DMIID {
    pub id_model: String,
    pub dmi_family: String,
    pub dmi_vendor: String,
    pub board_name: String,
    pub board_vendor: String,
    pub bios_date: String,
    pub bios_release: String,
    pub bios_vendor: String,
    pub bios_version: String,
    pub product_family: String,
    pub product_name: String,
}

/// Where a device keeps a value: among its properties or its attributes.
#[derive(Debug, Clone, Copy, PartialEq, Eq, Structural)]
pub enum DmiSource {
    Property,
    Attribute,
}

/// A value to look up on the DMI device.
#[derive(Debug, Clone, Copy)]
pub struct DmiQuery {
    pub source: DmiSource,
    pub name: &'static str,
}

/// How the search for the DMI device went. A failure comes with the message of its cause; a
/// device comes with the raw answers to `DMIID::queries`, in that order.
pub enum DmiScan {
    EnumeratorFailed(String),
    MatchFailed(String),
    ScanFailed(String),
    NoDevice,
    Device(Vec<Option<Vec<u8>>>),
}

/// The answer to a query as text, or `Unknown` where the device has none.
pub open spec fn answer_text(answers: Seq<Option<Vec<u8>>>, query: int) -> Seq<char> {
    if 0 <= query < answers.len() && answers[query] is Some {
        lossy_text(answers[query]->0@)
    } else {
        "Unknown"@
    }
}

/// What keeps the search from giving a `DMIID`, if anything does.
pub open spec fn scan_error(scan: DmiScan) -> Option<Seq<char>> {
    match scan {
        DmiScan::EnumeratorFailed(cause) => Some("dmi enumerator failed: "@ + cause@),
        DmiScan::MatchFailed(cause) => Some("dmi match_subsystem failed: "@ + cause@),
        DmiScan::ScanFailed(cause) => Some("dmi scan_devices failed: "@ + cause@),
        DmiScan::NoDevice => Some("dmi not found"@),
        DmiScan::Device(_) => None,
    }
}

impl DMIID {
    /// Whether each field is the answer to its query.
    pub open spec fn answers(self, answers: Seq<Option<Vec<u8>>>) -> bool {
        &&& self.id_model@ == answer_text(answers, 0)
        &&& self.dmi_family@ == answer_text(answers, 1)
        &&& self.dmi_vendor@ == answer_text(answers, 2)
        &&& self.board_name@ == answer_text(answers, 3)
        &&& self.board_vendor@ == answer_text(answers, 4)
        &&& self.bios_date@ == answer_text(answers, 5)
        &&& self.bios_release@ == answer_text(answers, 6)
        &&& self.bios_vendor@ == answer_text(answers, 7)
        &&& self.bios_version@ == answer_text(answers, 8)
        &&& self.product_family@ == answer_text(answers, 9)
        &&& self.product_name@ == answer_text(answers, 10)
    }

    /// The subsystem in which the device is found.
    pub fn subsystem() -> (name: &'static str)
        ensures
            name@ == "dmi"@,
    {
        "dmi"
    }

    /// What to look up on the device, one query for each field in its order.
    pub fn queries() -> (queries: [DmiQuery; 11])
        ensures
            forall|i: int|
                0 <= i < 11 ==> (#[trigger] queries@[i]).source == if i < 3 {
                    DmiSource::Property
                } else {
                    DmiSource::Attribute
                },
            queries@[0].name@ == "ID_MODEL"@,
            queries@[1].name@ == "DMI_FAMILY"@,
            queries@[2].name@ == "DMI_VENDOR"@,
            queries@[3].name@ == "board_name"@,
            queries@[4].name@ == "board_vendor"@,
            queries@[5].name@ == "bios_date"@,
            queries@[6].name@ == "bios_release"@,
            queries@[7].name@ == "bios_vendor"@,
            queries@[8].name@ == "bios_version"@,
            queries@[9].name@ == "product_family"@,
            queries@[10].name@ == "product_name"@,
    {
        [
            DmiQuery { source: DmiSource::Property, name: "ID_MODEL" },
            DmiQuery { source: DmiSource::Property, name: "DMI_FAMILY" },
            DmiQuery { source: DmiSource::Property, name: "DMI_VENDOR" },
            DmiQuery { source: DmiSource::Attribute, name: "board_name" },
            DmiQuery { source: DmiSource::Attribute, name: "board_vendor" },
            DmiQuery { source: DmiSource::Attribute, name: "bios_date" },
            DmiQuery { source: DmiSource::Attribute, name: "bios_release" },
            DmiQuery { source: DmiSource::Attribute, name: "bios_vendor" },
            DmiQuery { source: DmiSource::Attribute, name: "bios_version" },
            DmiQuery { source: DmiSource::Attribute, name: "product_family" },
            DmiQuery { source: DmiSource::Attribute, name: "product_name" },
        ]
    }

    fn answer(answers: &Vec<Option<Vec<u8>>>, query: usize) -> (text: String)
        ensures
            text@ == answer_text(answers@, query as int),
    {
        if query < answers.len() {
            if let Some(bytes) = &answers[query] {
                return to_lossy_text(bytes.as_slice());
            }
        }
        "Unknown".to_owned()
    }

    /// What the search found, or why it found nothing.
    pub fn new(scan: DmiScan) -> (result: Result<DMIID, String>)
        ensures
            match result {
                Ok(dmi) => scan matches DmiScan::Device(answers) && dmi.answers(answers@),
                Err(message) => scan_error(scan) == Some(message@),
            },
    {
        match scan {
            DmiScan::EnumeratorFailed(cause) => Err(
                concat("dmi enumerator failed: ", cause.as_str()),
            ),
            DmiScan::MatchFailed(cause) => Err(
                concat("dmi match_subsystem failed: ", cause.as_str()),
            ),
            DmiScan::ScanFailed(cause) => Err(
                concat("dmi scan_devices failed: ", cause.as_str()),
            ),
            DmiScan::NoDevice => Err("dmi not found".to_owned()),
            DmiScan::Device(answers) => Ok(
                DMIID {
                    id_model: DMIID::answer(&answers, 0),
                    dmi_family: DMIID::answer(&answers, 1),
                    dmi_vendor: DMIID::answer(&answers, 2),
                    board_name: DMIID::answer(&answers, 3),
                    board_vendor: DMIID::answer(&answers, 4),
                    bios_date: DMIID::answer(&answers, 5),
                    bios_release: DMIID::answer(&answers, 6),
                    bios_vendor: DMIID::answer(&answers, 7),
                    bios_version: DMIID::answer(&answers, 8),
                    product_family: DMIID::answer(&answers, 9),
                    product_name: DMIID::answer(&answers, 10),
                },
            ),
        }
    }
}


/// Each field holds the answer to the query at its place, decoded, or `Unknown` where there is
/// no answer; an answer at another place does not matter.
pub proof fn law_fields_are_the_answers(dmi: DMIID, answers: Seq<Option<Vec<u8>>>, i: int)
    requires
        dmi.answers(answers),
        0 <= i < 11,
    ensures
        ({
            let fields = seq![
                dmi.id_model@,
                dmi.dmi_family@,
                dmi.dmi_vendor@,
                dmi.board_name@,
                dmi.board_vendor@,
                dmi.bios_date@,
                dmi.bios_release@,
                dmi.bios_vendor@,
                dmi.bios_version@,
                dmi.product_family@,
                dmi.product_name@,
            ];
            &&& i < answers.len() && answers[i] is Some ==> fields[i] == lossy_text(
                answers[i]->0@,
            )
            &&& i >= answers.len() || answers[i] is None ==> fields[i] == "Unknown"@
        }),
{
}

/// A search fails exactly where no device was found, and says at which step and why.
pub proof fn law_failed_search_says_why(cause: String, answers: Vec<Option<Vec<u8>>>)
    ensures
        scan_error(DmiScan::EnumeratorFailed(cause)) == Some("dmi enumerator failed: "@ + cause@),
        scan_error(DmiScan::MatchFailed(cause)) == Some("dmi match_subsystem failed: "@ + cause@),
        scan_error(DmiScan::ScanFailed(cause)) == Some("dmi scan_devices failed: "@ + cause@),
        scan_error(DmiScan::NoDevice) == Some("dmi not found"@),
        scan_error(DmiScan::Device(answers)) is None,
{
}

} // verus!
