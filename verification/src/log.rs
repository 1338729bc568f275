use vstd::prelude::*;

verus! {

/// The logger of the runtime: every record is appended to `log_file`.
pub struct MyLogger {
    log_file: String,
}

/// The file the runtime's log is appended to.
pub open spec fn default_log_file() -> Seq<char> {
    "/home/yjn"@ + "/"@ + "illya_log"@
}

impl MyLogger {
    /// The file this logger appends to.
    pub closed spec fn log_file_view(&self) -> Seq<char> {
        self.log_file@
    }

    /// Returns the path of the file this logger appends to.
    pub fn log_file(&self) -> (path: &String)
        ensures
            path@ == self.log_file_view(),
    {
        &self.log_file
    }
}

/// A logger that appends to `illya_log` in the home directory.
pub fn new() -> (logger: MyLogger)
    ensures
        logger.log_file_view() == default_log_file(),
{
    let mut home = "/home/yjn".to_owned();
    home.append("/");
    home.append("illya_log");
    MyLogger { log_file: home }
}

/// The line written to the log file for one record:
/// `<level>:<target>:<time> - <message>` and a line break.
pub open spec fn record_line(level: Seq<char>, target: Seq<char>, time: Seq<char>, message: Seq<char>) -> Seq<char> {
    level + ":"@ + target + ":"@ + time + " - "@ + message + "\n"@
}

/// Formats the line that the logger appends for one record.
pub fn format_record(level: &str, target: &str, time: &str, message: &str) -> (line: String)
    ensures
        line@ == record_line(level@, target@, time@, message@),
{
    let mut line = level.to_owned();
    line.append(":");
    line.append(target);
    line.append(":");
    line.append(time);
    line.append(" - ");
    line.append(message);
    line.append("\n");
    line
}

} // verus!
