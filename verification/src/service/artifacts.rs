//! The service definitions that are handed to launchd and to systemd.
use vstd::prelude::*;
use crate::text::push_char;

verus! {

/// The label under which launchd knows the daemon.
pub open spec fn service_label() -> Seq<char> {
    "com.zeroclaw.daemon"@
}

/// Identifies the daemon to the operating system.
#[derive(Debug, Clone, PartialEq, Eq)]
pub struct ServiceDescriptor {
    /// The stable name of the service.
    pub label: String,
    /// The absolute path of the daemon's executable.
    pub exe_path: String,
    /// The argument that starts the daemon's long-running mode.
    pub start_arg: String,
}

/// [`ServiceDescriptor`] as contracts speak of it: every text is the sequence of its
/// characters.
pub struct DescriptorView {
    pub label: Seq<char>,
    pub exe_path: Seq<char>,
    pub start_arg: Seq<char>,
}

impl View for ServiceDescriptor {
    type V = DescriptorView;

    open spec fn view(&self) -> DescriptorView {
        DescriptorView { label: self.label@, exe_path: self.exe_path@, start_arg: self.start_arg@ }
    }
}

/// The descriptor of the daemon whose executable is at `exe_path`.
pub open spec fn daemon_descriptor(exe_path: Seq<char>) -> DescriptorView {
    DescriptorView { label: service_label(), exe_path, start_arg: "daemon"@ }
}

impl ServiceDescriptor {
    /// The descriptor of the daemon whose executable is at `exe_path`.
    pub fn new(exe_path: &str) -> (descriptor: ServiceDescriptor)
        ensures
            descriptor@ == daemon_descriptor(exe_path@),
    {
        ServiceDescriptor {
            label: String::from_str("com.zeroclaw.daemon"),
            exe_path: String::from_str(exe_path),
            start_arg: String::from_str("daemon"),
        }
    }
}

/// Whether `c` may not stand for itself in XML text.
pub open spec fn is_xml_reserved(c: char) -> bool {
    c == '&' || c == '<' || c == '>' || c == '"' || c == '\''
}

/// What stands for `c` in XML text: its entity if `c` is reserved, else `c`.
pub open spec fn xml_entity(c: char) -> Seq<char> {
    if c == '&' {
        "&amp;"@
    } else if c == '<' {
        "&lt;"@
    } else if c == '>' {
        "&gt;"@
    } else if c == '"' {
        "&quot;"@
    } else if c == '\'' {
        "&apos;"@
    } else {
        seq![c]
    }
}

/// `s` as XML text: each character replaced by what stands for it, in order.
pub open spec fn xml_escaped(s: Seq<char>) -> Seq<char>
    decreases s.len(),
{
    if s.len() == 0 {
        Seq::empty()
    } else {
        xml_escaped(s.drop_last()) + xml_entity(s.last())
    }
}

/// Escaping keeps the order of the text: a text in two parts is escaped part by
/// part.
pub proof fn lemma_xml_escaped_concat(a: Seq<char>, b: Seq<char>)
    ensures
        xml_escaped(a + b) == xml_escaped(a) + xml_escaped(b),
    decreases b.len(),
{
    if b.len() == 0 {
    } else {
        lemma_xml_escaped_concat(a, b.drop_last());
        assert((a + b).drop_last() =~= a + b.drop_last());
    }
}

/// A text without reserved characters is left as it is.
pub proof fn lemma_xml_escaped_plain(s: Seq<char>)
    requires
        forall|i: int| 0 <= i < s.len() ==> !is_xml_reserved(#[trigger] s[i]),
    ensures
        xml_escaped(s) == s,
    decreases s.len(),
{
    if s.len() > 0 {
        lemma_xml_escaped_plain(s.drop_last());
    }
}

/// A single character is escaped to what stands for it.
pub proof fn lemma_xml_escaped_char(c: char)
    ensures
        xml_escaped(seq![c]) == xml_entity(c),
{
    reveal_with_fuel(xml_escaped, 2);
}

/// A reserved character is replaced where it stands: the text before it and
/// the text after it are escaped on their own, and its entity stands between
/// them.
pub proof fn lemma_xml_escaped_in_place(before: Seq<char>, c: char, after: Seq<char>)
    ensures
        xml_escaped(before + seq![c] + after) == xml_escaped(before) + xml_entity(c) + xml_escaped(
            after,
        ),
{
    lemma_xml_escaped_concat(before + seq![c], after);
    lemma_xml_escaped_concat(before, seq![c]);
    lemma_xml_escaped_char(c);
}

/// The five entities, spelled out.
pub proof fn lemma_xml_entities()
    ensures
        xml_entity('&') == seq!['&', 'a', 'm', 'p', ';'],
        xml_entity('<') == seq!['&', 'l', 't', ';'],
        xml_entity('>') == seq!['&', 'g', 't', ';'],
        xml_entity('"') == seq!['&', 'q', 'u', 'o', 't', ';'],
        xml_entity('\'') == seq!['&', 'a', 'p', 'o', 's', ';'],
{
    reveal_strlit("&amp;");
    reveal_strlit("&lt;");
    reveal_strlit("&gt;");
    reveal_strlit("&quot;");
    reveal_strlit("&apos;");
}

/// Whether the entity of the reserved character `c` stands in `text` at `at`.
pub open spec fn entity_at(text: Seq<char>, at: int, c: char) -> bool {
    &&& is_xml_reserved(c)
    &&& 0 <= at
    &&& at + xml_entity(c).len() <= text.len()
    &&& text.subrange(at, at + xml_entity(c).len()) == xml_entity(c)
}

/// Nothing is escaped twice: of the reserved characters only `&` is left in an
/// escaped text, and every `&` left there opens one of the five entities.
pub proof fn lemma_xml_escaped_once(s: Seq<char>, i: int)
    requires
        0 <= i < xml_escaped(s).len(),
        is_xml_reserved(xml_escaped(s)[i]),
    ensures
        xml_escaped(s)[i] == '&',
        exists|c: char| entity_at(xml_escaped(s), i, c),
    decreases s.len(),
{
    lemma_xml_entities();
    let head = xml_escaped(s.drop_last());
    let tail = xml_entity(s.last());
    let whole = xml_escaped(s);
    if i < head.len() {
        lemma_xml_escaped_once(s.drop_last(), i);
        let c = choose|c: char| entity_at(head, i, c);
        assert(whole.subrange(i, i + xml_entity(c).len()) =~= head.subrange(
            i,
            i + xml_entity(c).len(),
        ));
        assert(entity_at(whole, i, c));
    } else {
        let c = s.last();
        assert(whole.subrange(i, i + tail.len()) =~= tail);
        assert(entity_at(whole, i, c));
    }
}

/// Escapes `raw` for use as XML text: `&`, `<`, `>`, `"` and `'` are replaced
/// by their entities, everything else is kept, in order.
pub fn xml_escape(raw: &str) -> (escaped: String)
    ensures
        escaped@ == xml_escaped(raw@),
{
    let mut escaped = String::new();
    for c in it: raw.chars()
        invariant
            it.seq() == raw@,
            escaped@ == xml_escaped(it.seq().take(it.index() as int)),
    {
        proof {
            assert(it.seq().take(it.index() + 1).drop_last() =~= it.seq().take(it.index() as int));
        }
        if c == '&' {
            escaped.append("&amp;");
        } else if c == '<' {
            escaped.append("&lt;");
        } else if c == '>' {
            escaped.append("&gt;");
        } else if c == '"' {
            escaped.append("&quot;");
        } else if c == '\'' {
            escaped.append("&apos;");
        } else {
            push_char(&mut escaped, c);
        }
    }
    proof {
        assert(raw@.take(raw@.len() as int) =~= raw@);
    }
    escaped
}

/// The property list that registers the daemon with launchd: its label, the
/// executable with the start argument, the two log files, and the wish to be
/// started at load and kept alive. Every text is escaped.
pub open spec fn launchd_plist(
    descriptor: DescriptorView,
    stdout_log: Seq<char>,
    stderr_log: Seq<char>,
) -> Seq<char> {
    "<?xml version=\"1.0\" encoding=\"UTF-8\"?>\n<!DOCTYPE plist PUBLIC \"-//Apple//DTD PLIST 1.0//EN\" \"http://www.apple.com/DTDs/PropertyList-1.0.dtd\">\n<plist version=\"1.0\">\n<dict>\n  <key>Label</key>\n  <string>"@
        + xml_escaped(descriptor.label)
        + "</string>\n  <key>ProgramArguments</key>\n  <array>\n    <string>"@ + xml_escaped(
        descriptor.exe_path,
    ) + "</string>\n    <string>"@ + xml_escaped(descriptor.start_arg)
        + "</string>\n  </array>\n  <key>RunAtLoad</key>\n  <true/>\n  <key>KeepAlive</key>\n  <true/>\n  <key>StandardOutPath</key>\n  <string>"@
        + xml_escaped(stdout_log) + "</string>\n  <key>StandardErrorPath</key>\n  <string>"@
        + xml_escaped(stderr_log) + "</string>\n</dict>\n</plist>\n"@
}

/// Writes the property list for launchd.
pub fn build_launchd_plist(descriptor: &ServiceDescriptor, stdout_log: &str, stderr_log: &str) -> (plist:
    String)
    ensures
        plist@ == launchd_plist(descriptor@, stdout_log@, stderr_log@),
{
    let mut plist = String::from_str(
        "<?xml version=\"1.0\" encoding=\"UTF-8\"?>\n<!DOCTYPE plist PUBLIC \"-//Apple//DTD PLIST 1.0//EN\" \"http://www.apple.com/DTDs/PropertyList-1.0.dtd\">\n<plist version=\"1.0\">\n<dict>\n  <key>Label</key>\n  <string>",
    );
    plist.append(xml_escape(descriptor.label.as_str()).as_str());
    plist.append("</string>\n  <key>ProgramArguments</key>\n  <array>\n    <string>");
    plist.append(xml_escape(descriptor.exe_path.as_str()).as_str());
    plist.append("</string>\n    <string>");
    plist.append(xml_escape(descriptor.start_arg.as_str()).as_str());
    plist.append(
        "</string>\n  </array>\n  <key>RunAtLoad</key>\n  <true/>\n  <key>KeepAlive</key>\n  <true/>\n  <key>StandardOutPath</key>\n  <string>",
    );
    plist.append(xml_escape(stdout_log).as_str());
    plist.append("</string>\n  <key>StandardErrorPath</key>\n  <string>");
    plist.append(xml_escape(stderr_log).as_str());
    plist.append("</string>\n</dict>\n</plist>\n");
    plist
}

/// The unit file that registers the daemon with the user's systemd: a simple
/// service that runs the executable with the start argument and is always
/// restarted, three seconds after it stopped.
pub open spec fn systemd_unit(descriptor: DescriptorView) -> Seq<char> {
    "[Unit]\nDescription=ZeroClaw daemon\nAfter=network.target\n\n[Service]\nType=simple\nExecStart="@
        + descriptor.exe_path + " "@ + descriptor.start_arg
        + "\nRestart=always\nRestartSec=3\n\n[Install]\nWantedBy=default.target\n"@
}

/// Writes the unit file for systemd.
pub fn build_systemd_unit(descriptor: &ServiceDescriptor) -> (unit: String)
    ensures
        unit@ == systemd_unit(descriptor@),
{
    let mut unit = String::from_str(
        "[Unit]\nDescription=ZeroClaw daemon\nAfter=network.target\n\n[Service]\nType=simple\nExecStart=",
    );
    unit.append(descriptor.exe_path.as_str());
    unit.append(" ");
    unit.append(descriptor.start_arg.as_str());
    unit.append("\nRestart=always\nRestartSec=3\n\n[Install]\nWantedBy=default.target\n");
    unit
}

} // verus!
