//! One selectable output: a port of a sink.

use vstd::prelude::*;

verus! {

/// Mathematical model of an output target: the texts as sequences of
/// characters.
pub struct OutputTarget {
    pub sink_name: Seq<char>,
    pub sink_description: Seq<char>,
    pub port_name: Seq<char>,
    pub port_description: Seq<char>,
    pub is_active: bool,
}

/// A port of a sink, as offered to the user.
///
/// `sink_name` and `port_name` identify the target towards the audio server,
/// the two descriptions are its labels. `is_active` says that the sink is the
/// server's default sink and the port is that sink's active port.
#[derive(Debug, PartialEq, Eq)]
pub struct PaOutput {
    pub sink_name: String,
    pub sink_description: String,
    pub port_name: String,
    pub port_description: String,
    pub is_active: bool,
}

impl View for PaOutput {
    type V = OutputTarget;

    open spec fn view(&self) -> OutputTarget {
        OutputTarget {
            sink_name: self.sink_name@,
            sink_description: self.sink_description@,
            port_name: self.port_name@,
            port_description: self.port_description@,
            is_active: self.is_active,
        }
    }
}

impl DeepView for PaOutput {
    type V = OutputTarget;

    open spec fn deep_view(&self) -> OutputTarget {
        self@
    }
}

/// The list line of a target: `<sink description>, Port '<port description>'`.
pub open spec fn list_line(target: OutputTarget) -> Seq<char> {
    target.sink_description + ", Port '"@ + target.port_description + "'"@
}

impl PaOutput {
    /// The line that stands for this target in the list.
    pub fn to_list_line(&self) -> (line: String)
        ensures
            line@ == list_line(self@),
    {
        let mut line = self.sink_description.clone();
        line.append(", Port '");
        line.append(self.port_description.as_str());
        line.append("'");
        line
    }
}

} // verus!
