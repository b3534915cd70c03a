//! The bundle's manifest, `Contents/Info.plist`: a property list whose keys
//! and framing are fixed and whose values come from the configuration.

use vstd::prelude::*;

verus! {

/// A character that XML 1.0 allows in a document: tab, line feed,
/// carriage return, and everything from the space on but U+FFFE and U+FFFF.
pub open spec fn is_xml_char(c: char) -> bool {
    c == '\t' || c == '\n' || c == '\r' || (' ' <= c && c != '\u{FFFE}' && c != '\u{FFFF}')
}

/// Text made only of characters that XML 1.0 allows.
pub open spec fn is_xml_text(s: Seq<char>) -> bool {
    forall|i: int| 0 <= i < s.len() ==> #[trigger] is_xml_char(s[i])
}

fn xml_char(c: char) -> (r: bool)
    ensures
        r == is_xml_char(c),
{
    c == '\t' || c == '\n' || c == '\r' || (' ' <= c && c != '\u{FFFE}' && c != '\u{FFFF}')
}

/// Whether every character of `s` may stand in an XML document.
pub fn valid_xml_text(s: &str) -> (r: bool)
    ensures
        r == is_xml_text(s@),
{
    let n = s.unicode_len();
    let mut i: usize = 0;
    while i < n
        invariant
            n == s@.len(),
            i <= n,
            forall|j: int| 0 <= j < i ==> #[trigger] is_xml_char(s@[j]),
        decreases n - i,
    {
        if !xml_char(s.get_char(i)) {
            assert(!is_xml_char(s@[i as int]));
            return false;
        }
        i = i + 1;
    }
    true
}

/// How one character stands in XML text: `&`, `<` and `>` as entities,
/// every other character as itself.
pub open spec fn escape_char(c: char) -> Seq<char> {
    if c == '&' {
        "&amp;"@
    } else if c == '<' {
        "&lt;"@
    } else if c == '>' {
        "&gt;"@
    } else {
        seq![c]
    }
}

/// `s` as XML text.
pub open spec fn escaped(s: Seq<char>) -> Seq<char>
    decreases s.len(),
{
    if s.len() == 0 {
        Seq::empty()
    } else {
        escaped(s.drop_last()) + escape_char(s.last())
    }
}

/// One key with a string value, on two tab-indented lines.
pub open spec fn string_entry(key: Seq<char>, value: Seq<char>) -> Seq<char> {
    "\t<key>"@ + key + "</key>\n\t<string>"@ + escaped(value) + "</string>\n"@
}

/// The XML declaration, the document type, and the opening of the
/// top-level dictionary.
pub open spec fn manifest_prologue() -> Seq<char> {
    "<?xml version=\"1.0\" encoding=\"UTF-8\"?>\n"@
        + "<!DOCTYPE plist PUBLIC \"-//Apple//DTD PLIST 1.0//EN\" \"http://www.apple.com/DTDs/PropertyList-1.0.dtd\">\n"@
        + "<plist version=\"1.0\">\n"@ + "<dict>\n"@
}

/// The supported platforms: a list with the single tag of the host.
pub open spec fn platforms_entry() -> Seq<char> {
    "\t<key>CFBundleSupportedPlatforms</key>\n"@ + "\t<array>\n"@ + "\t\t<string>MacOSX</string>\n"@
        + "\t</array>\n"@
}

/// The high-resolution flag, a boolean that is always true.
pub open spec fn high_resolution_entry() -> Seq<char> {
    "\t<key>NSHighResolutionCapable</key>\n"@ + "\t<true/>\n"@
}

/// The close of the dictionary and of the document.
pub open spec fn manifest_epilogue() -> Seq<char> {
    "</dict>\n"@ + "</plist>\n"@
}

/// The whole manifest, as XML text with each value escaped, of a bundle
/// named `name`, identified by `ident`, at
/// version `version`, whose executable is the file `exe`.
pub open spec fn manifest_text(
    name: Seq<char>,
    ident: Seq<char>,
    version: Seq<char>,
    exe: Seq<char>,
) -> Seq<char> {
    manifest_prologue() + string_entry("CFBundleName"@, name) + string_entry(
        "CFBundleDisplayName"@,
        name,
    ) + string_entry("CFBundleIdentifier"@, ident) + string_entry("CFBundleExecutable"@, exe)
        + string_entry("CFBundleShortVersionString"@, version) + platforms_entry() + string_entry(
        "CFBundleVersion"@,
        version,
    ) + string_entry("NSPrincipalClass"@, "NSApplication"@) + high_resolution_entry()
        + string_entry("CFBundleInfoDictionaryVersion"@, "6.0"@) + string_entry(
        "CFBundlePackageType"@,
        "APPL"@,
    ) + string_entry("CFBundleSignature"@, "????"@) + string_entry(
        "LSMinimumSystemVersion"@,
        "10.10.0"@,
    ) + manifest_epilogue()
}

/// Appends `s` to `out` as XML text.
pub fn push_escaped(out: &mut String, s: &str)
    ensures
        final(out)@ == old(out)@ + escaped(s@),
{
    let n = s.unicode_len();
    let mut i: usize = 0;
    assert(s@.subrange(0, 0) =~= Seq::<char>::empty());
    while i < n
        invariant
            n == s@.len(),
            i <= n,
            out@ == old(out)@ + escaped(s@.subrange(0, i as int)),
        decreases n - i,
    {
        let c = s.get_char(i);
        assert(s@.subrange(0, i + 1).drop_last() =~= s@.subrange(0, i as int));
        if c == '&' {
            out.append("&amp;");
        } else if c == '<' {
            out.append("&lt;");
        } else if c == '>' {
            out.append("&gt;");
        } else {
            let one = s.substring_char(i, i + 1);
            assert(one@ =~= seq![c]);
            out.append(one);
        }
        assert(out@ =~= old(out)@ + escaped(s@.subrange(0, i + 1)));
        i = i + 1;
    }
    assert(s@.subrange(0, n as int) =~= s@);
}

fn push_entry(out: &mut String, key: &str, value: &str)
    ensures
        final(out)@ == old(out)@ + string_entry(key@, value@),
{
    out.append("\t<key>");
    out.append(key);
    out.append("</key>\n\t<string>");
    push_escaped(out, value);
    out.append("</string>\n");
    assert(final(out)@ =~= old(out)@ + string_entry(key@, value@));
}

/// The manifest for the given values, exactly as the bundle holds it.
pub fn manifest(name: &str, ident: &str, version: &str, exe: &str) -> (r: String)
    ensures
        r@ == manifest_text(name@, ident@, version@, exe@),
{
    let mut out = String::new();
    out.append("<?xml version=\"1.0\" encoding=\"UTF-8\"?>\n");
    out.append(
        "<!DOCTYPE plist PUBLIC \"-//Apple//DTD PLIST 1.0//EN\" \"http://www.apple.com/DTDs/PropertyList-1.0.dtd\">\n",
    );
    out.append("<plist version=\"1.0\">\n");
    out.append("<dict>\n");
    assert(out@ =~= manifest_prologue());
    push_entry(&mut out, "CFBundleName", name);
    push_entry(&mut out, "CFBundleDisplayName", name);
    push_entry(&mut out, "CFBundleIdentifier", ident);
    push_entry(&mut out, "CFBundleExecutable", exe);
    push_entry(&mut out, "CFBundleShortVersionString", version);
    let ghost before = out@;
    out.append("\t<key>CFBundleSupportedPlatforms</key>\n");
    out.append("\t<array>\n");
    out.append("\t\t<string>MacOSX</string>\n");
    out.append("\t</array>\n");
    assert(out@ =~= before + platforms_entry());
    push_entry(&mut out, "CFBundleVersion", version);
    push_entry(&mut out, "NSPrincipalClass", "NSApplication");
    let ghost before = out@;
    out.append("\t<key>NSHighResolutionCapable</key>\n");
    out.append("\t<true/>\n");
    assert(out@ =~= before + high_resolution_entry());
    push_entry(&mut out, "CFBundleInfoDictionaryVersion", "6.0");
    push_entry(&mut out, "CFBundlePackageType", "APPL");
    push_entry(&mut out, "CFBundleSignature", "????");
    push_entry(&mut out, "LSMinimumSystemVersion", "10.10.0");
    let ghost before = out@;
    out.append("</dict>\n");
    out.append("</plist>\n");
    assert(out@ =~= before + manifest_epilogue());
    out
}

} // verus!
