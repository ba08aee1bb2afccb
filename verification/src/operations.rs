//! The operator-facing operations of the menu, as unit types with their
//! catalog descriptions. Their interactive work (prompting, capture
//! lifecycle, display) lives outside the library; what each one decides is
//! library logic reached through the services.

use vstd::prelude::*;

verus! {

/// Pick the capture device to sniff from.
pub struct SelectDeviceOperation {}

impl SelectDeviceOperation {
    pub fn new() -> (r: SelectDeviceOperation) {
        SelectDeviceOperation {  }
    }

    /// The menu entry for this operation.
    pub fn get_description(&self) -> (r: String)
        ensures
            r@ == "Select device"@,
    {
        String::from_str("Select device")
    }
}

/// Start pulling frames from the capture provider.
pub struct StartSniffingOperation {}

impl StartSniffingOperation {
    pub fn new() -> (r: StartSniffingOperation) {
        StartSniffingOperation {  }
    }

    /// The menu entry for this operation.
    pub fn get_description(&self) -> (r: String)
        ensures
            r@ == "Start sniffing"@,
    {
        String::from_str("Start sniffing")
    }
}

/// Drop every collected frame, after the operator confirms.
pub struct ClearCollectedPacketsOperation {}

impl ClearCollectedPacketsOperation {
    pub fn new() -> (r: ClearCollectedPacketsOperation) {
        ClearCollectedPacketsOperation {  }
    }

    /// The menu entry for this operation.
    pub fn get_description(&self) -> (r: String)
        ensures
            r@ == "Clear collected packets"@,
    {
        String::from_str("Clear collected packets")
    }

    /// Does the operator's confirmation line agree to the clearing? Only a
    /// lone `y`, in either case, counts as agreement.
    pub fn verify_agreement(&self, answer: &str) -> (r: bool)
        ensures
            r == (answer@ == "y"@ || answer@ == "Y"@),
    {
        proof {
            reveal_strlit("y");
            reveal_strlit("Y");
        }
        if answer.unicode_len() != 1 {
            return false;
        }
        let c = answer.get_char(0);
        proof {
            if answer@ == "y"@ {
                assert(answer@[0] == 'y');
            }
            if c == 'y' {
                assert(answer@ =~= "y"@);
            }
            if c == 'Y' {
                assert(answer@ =~= "Y"@);
            }
        }
        c == 'y' || c == 'Y'
    }
}

/// Browse the collected frames through the packet viewer.
pub struct ViewPacketsOperation {}

impl ViewPacketsOperation {
    pub fn new() -> (r: ViewPacketsOperation) {
        ViewPacketsOperation {  }
    }

    /// The menu entry for this operation.
    pub fn get_description(&self) -> (r: String)
        ensures
            r@ == "View packets"@,
    {
        String::from_str("View packets")
    }
}

/// Add, reconfigure, remove or clear active filters.
pub struct ConfigureFiltersOperation {}

impl ConfigureFiltersOperation {
    pub fn new() -> (r: ConfigureFiltersOperation) {
        ConfigureFiltersOperation {  }
    }

    /// The menu entry for this operation.
    pub fn get_description(&self) -> (r: String)
        ensures
            r@ == "Configure filters"@,
    {
        String::from_str("Configure filters")
    }
}

/// Summarize the collected traffic.
pub struct TrafficAnalysisOperation {}

impl TrafficAnalysisOperation {
    pub fn new() -> (r: TrafficAnalysisOperation) {
        TrafficAnalysisOperation {  }
    }

    /// The menu entry for this operation.
    pub fn get_description(&self) -> (r: String)
        ensures
            r@ == "Traffic analysis"@,
    {
        String::from_str("Traffic analysis")
    }
}

/// Leave the program.
pub struct ExitProgramOperation {}

impl ExitProgramOperation {
    pub fn new() -> (r: ExitProgramOperation) {
        ExitProgramOperation {  }
    }

    /// The menu entry for this operation.
    pub fn get_description(&self) -> (r: String)
        ensures
            r@ == "Exit program"@,
    {
        String::from_str("Exit program")
    }
}

} // verus!
