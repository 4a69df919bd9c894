//! Packaging data for making an extension installable: the application
//! manifest the host's platform expects, generated as one XML document whose
//! content is pinned, character for character, by the specification
//! [`manifest_xml`].
use vstd::prelude::*;
use vstd::std_specs::iter::IteratorSpec;

verus! {

/// Relies on `alloc::string::String::push_str`: appends the string slice to
/// the end of the string.
pub assume_specification[ String::push_str ](s: &mut String, other: &str)
    ensures
        final(s)@ == old(s)@ + other@,
;

/// Relies on `alloc::string::String::push`: appends the character to the end
/// of the string.
pub assume_specification[ String::push ](s: &mut String, ch: char)
    ensures
        final(s)@ == old(s)@.push(ch),
;

/// The fields of an application manifest, fully resolved: every default has
/// already been applied by [`AppxManifestBuilder::build`].
pub struct AppxManifest {
    /// The package identity name.
    pub id: String,
    /// The publisher identity, a distinguished name.
    pub publisher_id: String,
    /// The four-part package version.
    pub version: String,
    /// The path of the store logo asset.
    pub logo: String,
    /// The name shown to the user.
    pub display_name: String,
    /// The publisher name shown to the user.
    pub publisher_display_name: String,
    /// The description shown to the user.
    pub description: String,
    /// The server executable's file name.
    pub executable: String,
    /// The arguments the host passes when starting the server.
    pub arguments: String,
    /// The served classes: each class identifier with its display name.
    pub classes: Vec<(String, String)>,
}

/// One served class as an XML element.
pub open spec fn com_class_xml(class: (String, String)) -> Seq<char> {
    r#"<com:Class Id=""#@ + class.0@ + r#"" DisplayName=""#@ + class.1@ + r#"" />"#@
}

/// Every served class as XML elements, one line each.
pub open spec fn com_classes_xml(classes: Seq<(String, String)>) -> Seq<char>
    decreases classes.len(),
{
    if classes.len() == 0 {
        Seq::empty()
    } else if classes.len() == 1 {
        com_class_xml(classes.last())
    } else {
        com_classes_xml(classes.drop_last()) + "\n"@ + com_class_xml(classes.last())
    }
}

/// One served class as an activation entry.
pub open spec fn activation_class_xml(class: (String, String)) -> Seq<char> {
    r#"<CreateInstance ClassId=""#@ + class.0@ + r#"" />"#@
}

/// Every served class as activation entries, one line each.
pub open spec fn activation_classes_xml(classes: Seq<(String, String)>) -> Seq<char>
    decreases classes.len(),
{
    if classes.len() == 0 {
        Seq::empty()
    } else if classes.len() == 1 {
        activation_class_xml(classes.last())
    } else {
        activation_classes_xml(classes.drop_last()) + "\n"@ + activation_class_xml(classes.last())
    }
}

/// The complete manifest document generated for `m`.
pub open spec fn manifest_xml(m: AppxManifest) -> Seq<char> {
    r#"<?xml version="1.0" encoding="utf-8"?>

<Package
  xmlns="http://schemas.microsoft.com/appx/manifest/foundation/windows10"
  xmlns:uap="http://schemas.microsoft.com/appx/manifest/uap/windows10"
  xmlns:uap3="http://schemas.microsoft.com/appx/manifest/uap/windows10/3"
  xmlns:com="http://schemas.microsoft.com/appx/manifest/com/windows10"
  xmlns:rescap="http://schemas.microsoft.com/appx/manifest/foundation/windows10/restrictedcapabilities"
  IgnorableNamespaces="uap uap3 rescap">

  <Identity
    Name=""#@ + m.id@ + r#""
    Publisher=""#@ + m.publisher_id@ + r#""
    Version=""#@ + m.version@ + r#"" />

  <Properties>
    <DisplayName>"#@ + m.display_name@ + r#"</DisplayName>
    <PublisherDisplayName>"#@ + m.publisher_display_name@ + r#"</PublisherDisplayName>
    <Logo>"#@ + m.logo@ + r#"</Logo>
  </Properties>

  <Dependencies>
    <TargetDeviceFamily Name="Windows.Universal" MinVersion="10.0.17763.0" MaxVersionTested="10.0.19041.0" />
    <TargetDeviceFamily Name="Windows.Desktop" MinVersion="10.0.17763.0" MaxVersionTested="10.0.19041.0" />
  </Dependencies>

  <Applications>
    <Application Id="App"
      Executable=""#@ + m.executable@ + r#""
      EntryPoint="Windows.FullTrustApplication">
      <uap:VisualElements
        DisplayName=""#@ + m.display_name@ + r#""
        Description=""#@ + m.description@ + r#""
        BackgroundColor="transparent"
        Square150x150Logo="Assets\Square150x150Logo.png"
        Square44x44Logo="Assets\Square44x44Logo.png">
      </uap:VisualElements>
      <Extensions>
        <com:Extension Category="windows.comServer">
          <com:ComServer>
            <com:ExeServer Executable=""#@ + m.executable@ + r#"" Arguments=""#@ + m.arguments@ + r#"" DisplayName=""#@ + m.display_name@ + r#"">
              "#@ + com_classes_xml(m.classes@) + r#"
            </com:ExeServer>
          </com:ComServer>
        </com:Extension>
        <uap3:Extension Category="windows.appExtension">
          <uap3:AppExtension Name="com.microsoft.commandpalette"
            Id="PG-SP-ID"
            PublicFolder="Public"
            DisplayName=""#@ + m.display_name@ + r#""
            Description=""#@ + m.description@ + r#"">
            <uap3:Properties>
              <CmdPalProvider>
                <Activation>
                  "#@ + activation_classes_xml(m.classes@) + r#"
                </Activation>
                <SupportedInterfaces>
                  <Commands/>
                </SupportedInterfaces>
              </CmdPalProvider>
            </uap3:Properties>
          </uap3:AppExtension>
        </uap3:Extension>
      </Extensions>
    </Application>
  </Applications>

  <Capabilities>
    <rescap:Capability Name="runFullTrust" />
  </Capabilities>
</Package>
"#@
}

impl AppxManifest {
    /// Renders the manifest as the XML document [`manifest_xml`] describes.
    pub fn generate_xml(&self) -> (r: String)
        ensures
            r@ == manifest_xml(*self),
    {
        let com_classes = com_classes_string(&self.classes);
        let activation_classes = activation_classes_string(&self.classes);
        let mut xml = r#"<?xml version="1.0" encoding="utf-8"?>

<Package
  xmlns="http://schemas.microsoft.com/appx/manifest/foundation/windows10"
  xmlns:uap="http://schemas.microsoft.com/appx/manifest/uap/windows10"
  xmlns:uap3="http://schemas.microsoft.com/appx/manifest/uap/windows10/3"
  xmlns:com="http://schemas.microsoft.com/appx/manifest/com/windows10"
  xmlns:rescap="http://schemas.microsoft.com/appx/manifest/foundation/windows10/restrictedcapabilities"
  IgnorableNamespaces="uap uap3 rescap">

  <Identity
    Name=""#.to_owned();
        xml.push_str(self.id.as_str());
        xml.push_str(r#""
    Publisher=""#);
        xml.push_str(self.publisher_id.as_str());
        xml.push_str(r#""
    Version=""#);
        xml.push_str(self.version.as_str());
        xml.push_str(r#"" />

  <Properties>
    <DisplayName>"#);
        xml.push_str(self.display_name.as_str());
        xml.push_str(r#"</DisplayName>
    <PublisherDisplayName>"#);
        xml.push_str(self.publisher_display_name.as_str());
        xml.push_str(r#"</PublisherDisplayName>
    <Logo>"#);
        xml.push_str(self.logo.as_str());
        xml.push_str(r#"</Logo>
  </Properties>

  <Dependencies>
    <TargetDeviceFamily Name="Windows.Universal" MinVersion="10.0.17763.0" MaxVersionTested="10.0.19041.0" />
    <TargetDeviceFamily Name="Windows.Desktop" MinVersion="10.0.17763.0" MaxVersionTested="10.0.19041.0" />
  </Dependencies>

  <Applications>
    <Application Id="App"
      Executable=""#);
        xml.push_str(self.executable.as_str());
        xml.push_str(r#""
      EntryPoint="Windows.FullTrustApplication">
      <uap:VisualElements
        DisplayName=""#);
        xml.push_str(self.display_name.as_str());
        xml.push_str(r#""
        Description=""#);
        xml.push_str(self.description.as_str());
        xml.push_str(r#""
        BackgroundColor="transparent"
        Square150x150Logo="Assets\Square150x150Logo.png"
        Square44x44Logo="Assets\Square44x44Logo.png">
      </uap:VisualElements>
      <Extensions>
        <com:Extension Category="windows.comServer">
          <com:ComServer>
            <com:ExeServer Executable=""#);
        xml.push_str(self.executable.as_str());
        xml.push_str(r#"" Arguments=""#);
        xml.push_str(self.arguments.as_str());
        xml.push_str(r#"" DisplayName=""#);
        xml.push_str(self.display_name.as_str());
        xml.push_str(r#"">
              "#);
        xml.push_str(com_classes.as_str());
        xml.push_str(r#"
            </com:ExeServer>
          </com:ComServer>
        </com:Extension>
        <uap3:Extension Category="windows.appExtension">
          <uap3:AppExtension Name="com.microsoft.commandpalette"
            Id="PG-SP-ID"
            PublicFolder="Public"
            DisplayName=""#);
        xml.push_str(self.display_name.as_str());
        xml.push_str(r#""
            Description=""#);
        xml.push_str(self.description.as_str());
        xml.push_str(r#"">
            <uap3:Properties>
              <CmdPalProvider>
                <Activation>
                  "#);
        xml.push_str(activation_classes.as_str());
        xml.push_str(r#"
                </Activation>
                <SupportedInterfaces>
                  <Commands/>
                </SupportedInterfaces>
              </CmdPalProvider>
            </uap3:Properties>
          </uap3:AppExtension>
        </uap3:Extension>
      </Extensions>
    </Application>
  </Applications>

  <Capabilities>
    <rescap:Capability Name="runFullTrust" />
  </Capabilities>
</Package>
"#);
        xml
    }
}

/// Renders one served class as an XML element.
fn com_class_string(class: &(String, String)) -> (r: String)
    ensures
        r@ == com_class_xml(*class),
{
    let mut s = r#"<com:Class Id=""#.to_owned();
    s.push_str(class.0.as_str());
    s.push_str(r#"" DisplayName=""#);
    s.push_str(class.1.as_str());
    s.push_str(r#"" />"#);
    s
}

/// Renders every served class, one line each.
fn com_classes_string(classes: &Vec<(String, String)>) -> (r: String)
    ensures
        r@ == com_classes_xml(classes@),
{
    let mut s = String::new();
    let mut i: usize = 0;
    proof {
        assert(classes@.subrange(0, 0) =~= Seq::<(String, String)>::empty());
    }
    while i < classes.len()
        invariant
            i <= classes.len(),
            s@ == com_classes_xml(classes@.subrange(0, i as int)),
        decreases classes.len() - i,
    {
        if i > 0 {
            s.push_str("\n");
        }
        let item = com_class_string(&classes[i]);
        s.push_str(item.as_str());
        proof {
            let t = classes@.subrange(0, i as int + 1);
            assert(t.drop_last() =~= classes@.subrange(0, i as int));
            assert(t.last() == classes@[i as int]);
        }
        i += 1;
    }
    proof {
        assert(classes@.subrange(0, classes@.len() as int) =~= classes@);
    }
    s
}

/// Renders one served class as an activation entry.
fn activation_class_string(class: &(String, String)) -> (r: String)
    ensures
        r@ == activation_class_xml(*class),
{
    let mut s = r#"<CreateInstance ClassId=""#.to_owned();
    s.push_str(class.0.as_str());
    s.push_str(r#"" />"#);
    s
}

/// Renders every served class as activation entries, one line each.
fn activation_classes_string(classes: &Vec<(String, String)>) -> (r: String)
    ensures
        r@ == activation_classes_xml(classes@),
{
    let mut s = String::new();
    let mut i: usize = 0;
    proof {
        assert(classes@.subrange(0, 0) =~= Seq::<(String, String)>::empty());
    }
    while i < classes.len()
        invariant
            i <= classes.len(),
            s@ == activation_classes_xml(classes@.subrange(0, i as int)),
        decreases classes.len() - i,
    {
        if i > 0 {
            s.push_str("\n");
        }
        let item = activation_class_string(&classes[i]);
        s.push_str(item.as_str());
        proof {
            let t = classes@.subrange(0, i as int + 1);
            assert(t.drop_last() =~= classes@.subrange(0, i as int));
            assert(t.last() == classes@[i as int]);
        }
        i += 1;
    }
    proof {
        assert(classes@.subrange(0, classes@.len() as int) =~= classes@);
    }
    s
}

/// The character rendering one hexadecimal digit, lower case.
pub open spec fn hex_digit_char(d: u8) -> char {
    if d == 0 { '0' } else if d == 1 { '1' } else if d == 2 { '2' } else if d == 3 { '3' }
    else if d == 4 { '4' } else if d == 5 { '5' } else if d == 6 { '6' } else if d == 7 { '7' }
    else if d == 8 { '8' } else if d == 9 { '9' } else if d == 10 { 'a' } else if d == 11 { 'b' }
    else if d == 12 { 'c' } else if d == 13 { 'd' } else if d == 14 { 'e' } else { 'f' }
}

/// The hyphenated, lower-case rendering of a 128-bit class identifier, in
/// five groups of 8, 4, 4, 4, and 12 hexadecimal digits.
pub open spec fn uuid_chars(n: u128) -> Seq<char> {
    uuid_group1_chars(n) + seq!['-'] + uuid_group2_chars(n) + seq!['-'] + uuid_group3_chars(n)
        + seq!['-'] + uuid_group4_chars(n) + seq!['-'] + uuid_group5_chars(n)
}

/// The character for the hexadecimal digit of `n` starting at bit `shift`.
fn nibble_char(n: u128, shift: u32) -> (c: char)
    requires
        shift <= 124,
    ensures
        c == hex_digit_char(((n >> shift) & 0xf) as u8),
{
    proof {
        assert(((n >> shift) & 0xf) < 16) by (bit_vector);
    }
    let d = ((n >> shift) & 0xf) as u8;
    if d == 0 { '0' } else if d == 1 { '1' } else if d == 2 { '2' } else if d == 3 { '3' }
    else if d == 4 { '4' } else if d == 5 { '5' } else if d == 6 { '6' } else if d == 7 { '7' }
    else if d == 8 { '8' } else if d == 9 { '9' } else if d == 10 { 'a' } else if d == 11 { 'b' }
    else if d == 12 { 'c' } else if d == 13 { 'd' } else if d == 14 { 'e' } else { 'f' }
}

/// The first digit group of the hyphenated rendering of `n`.
pub open spec fn uuid_group1_chars(n: u128) -> Seq<char> {
    seq![
        hex_digit_char(((n >> 124) & 0xf) as u8),
        hex_digit_char(((n >> 120) & 0xf) as u8),
        hex_digit_char(((n >> 116) & 0xf) as u8),
        hex_digit_char(((n >> 112) & 0xf) as u8),
        hex_digit_char(((n >> 108) & 0xf) as u8),
        hex_digit_char(((n >> 104) & 0xf) as u8),
        hex_digit_char(((n >> 100) & 0xf) as u8),
        hex_digit_char(((n >> 96) & 0xf) as u8)
    ]
}

/// Renders the first digit group of `n`.
fn uuid_group1_string(n: u128) -> (r: String)
    ensures
        r@ == uuid_group1_chars(n),
{
    let mut s = String::new();
    s.push(nibble_char(n, 124));
    s.push(nibble_char(n, 120));
    s.push(nibble_char(n, 116));
    s.push(nibble_char(n, 112));
    s.push(nibble_char(n, 108));
    s.push(nibble_char(n, 104));
    s.push(nibble_char(n, 100));
    s.push(nibble_char(n, 96));
    proof {
        assert(s@ =~= uuid_group1_chars(n));
    }
    s
}

/// The second digit group of the hyphenated rendering of `n`.
pub open spec fn uuid_group2_chars(n: u128) -> Seq<char> {
    seq![
        hex_digit_char(((n >> 92) & 0xf) as u8),
        hex_digit_char(((n >> 88) & 0xf) as u8),
        hex_digit_char(((n >> 84) & 0xf) as u8),
        hex_digit_char(((n >> 80) & 0xf) as u8)
    ]
}

/// Renders the second digit group of `n`.
fn uuid_group2_string(n: u128) -> (r: String)
    ensures
        r@ == uuid_group2_chars(n),
{
    let mut s = String::new();
    s.push(nibble_char(n, 92));
    s.push(nibble_char(n, 88));
    s.push(nibble_char(n, 84));
    s.push(nibble_char(n, 80));
    proof {
        assert(s@ =~= uuid_group2_chars(n));
    }
    s
}

/// The third digit group of the hyphenated rendering of `n`.
pub open spec fn uuid_group3_chars(n: u128) -> Seq<char> {
    seq![
        hex_digit_char(((n >> 76) & 0xf) as u8),
        hex_digit_char(((n >> 72) & 0xf) as u8),
        hex_digit_char(((n >> 68) & 0xf) as u8),
        hex_digit_char(((n >> 64) & 0xf) as u8)
    ]
}

/// Renders the third digit group of `n`.
fn uuid_group3_string(n: u128) -> (r: String)
    ensures
        r@ == uuid_group3_chars(n),
{
    let mut s = String::new();
    s.push(nibble_char(n, 76));
    s.push(nibble_char(n, 72));
    s.push(nibble_char(n, 68));
    s.push(nibble_char(n, 64));
    proof {
        assert(s@ =~= uuid_group3_chars(n));
    }
    s
}

/// The fourth digit group of the hyphenated rendering of `n`.
pub open spec fn uuid_group4_chars(n: u128) -> Seq<char> {
    seq![
        hex_digit_char(((n >> 60) & 0xf) as u8),
        hex_digit_char(((n >> 56) & 0xf) as u8),
        hex_digit_char(((n >> 52) & 0xf) as u8),
        hex_digit_char(((n >> 48) & 0xf) as u8)
    ]
}

/// Renders the fourth digit group of `n`.
fn uuid_group4_string(n: u128) -> (r: String)
    ensures
        r@ == uuid_group4_chars(n),
{
    let mut s = String::new();
    s.push(nibble_char(n, 60));
    s.push(nibble_char(n, 56));
    s.push(nibble_char(n, 52));
    s.push(nibble_char(n, 48));
    proof {
        assert(s@ =~= uuid_group4_chars(n));
    }
    s
}

/// The fifth digit group of the hyphenated rendering of `n`.
pub open spec fn uuid_group5_chars(n: u128) -> Seq<char> {
    seq![
        hex_digit_char(((n >> 44) & 0xf) as u8),
        hex_digit_char(((n >> 40) & 0xf) as u8),
        hex_digit_char(((n >> 36) & 0xf) as u8),
        hex_digit_char(((n >> 32) & 0xf) as u8),
        hex_digit_char(((n >> 28) & 0xf) as u8),
        hex_digit_char(((n >> 24) & 0xf) as u8),
        hex_digit_char(((n >> 20) & 0xf) as u8),
        hex_digit_char(((n >> 16) & 0xf) as u8),
        hex_digit_char(((n >> 12) & 0xf) as u8),
        hex_digit_char(((n >> 8) & 0xf) as u8),
        hex_digit_char(((n >> 4) & 0xf) as u8),
        hex_digit_char(((n >> 0) & 0xf) as u8)
    ]
}

/// Renders the fifth digit group of `n`.
fn uuid_group5_string(n: u128) -> (r: String)
    ensures
        r@ == uuid_group5_chars(n),
{
    let mut s = String::new();
    s.push(nibble_char(n, 44));
    s.push(nibble_char(n, 40));
    s.push(nibble_char(n, 36));
    s.push(nibble_char(n, 32));
    s.push(nibble_char(n, 28));
    s.push(nibble_char(n, 24));
    s.push(nibble_char(n, 20));
    s.push(nibble_char(n, 16));
    s.push(nibble_char(n, 12));
    s.push(nibble_char(n, 8));
    s.push(nibble_char(n, 4));
    s.push(nibble_char(n, 0));
    proof {
        assert(s@ =~= uuid_group5_chars(n));
    }
    s
}

/// Renders a 128-bit class identifier in its hyphenated form.
pub fn uuid_string(class_id: u128) -> (r: String)
    ensures
        r@ == uuid_chars(class_id),
{
    let mut uuid = uuid_group1_string(class_id);
    let ghost g1 = uuid@;
    uuid.push('-');
    proof {
        assert(uuid@ =~= g1 + seq!['-']);
    }
    let part = uuid_group2_string(class_id);
    uuid.push_str(part.as_str());
    let ghost g2 = uuid@;
    uuid.push('-');
    proof {
        assert(uuid@ =~= g2 + seq!['-']);
    }
    let part = uuid_group3_string(class_id);
    uuid.push_str(part.as_str());
    let ghost g3 = uuid@;
    uuid.push('-');
    proof {
        assert(uuid@ =~= g3 + seq!['-']);
    }
    let part = uuid_group4_string(class_id);
    uuid.push_str(part.as_str());
    let ghost g4 = uuid@;
    uuid.push('-');
    proof {
        assert(uuid@ =~= g4 + seq!['-']);
    }
    let part = uuid_group5_string(class_id);
    uuid.push_str(part.as_str());
    uuid
}

/// Builder for [`AppxManifest`]. Unset fields fall back to the defaults that
/// [`AppxManifestBuilder::build`] documents; the identity name, the version,
/// and the executable have no usable default and must be set.
pub struct AppxManifestBuilder {
    /// The package identity name, if set.
    pub id: Option<String>,
    /// The publisher identity, if set.
    pub publisher_id: Option<String>,
    /// The four-part package version, if set.
    pub version: Option<String>,
    /// The store logo asset path, if set.
    pub logo: Option<String>,
    /// The user-visible name, if set.
    pub display_name: Option<String>,
    /// The user-visible publisher name, if set.
    pub publisher_display_name: Option<String>,
    /// The user-visible description, if set.
    pub description: Option<String>,
    /// The server executable's file name, if set.
    pub executable: Option<String>,
    /// The server start arguments, if set.
    pub arguments: Option<String>,
    /// The served classes: each class identifier with an optional display
    /// name.
    pub classes: Vec<(String, Option<String>)>,
}

impl AppxManifestBuilder {
    /// Starts a manifest with nothing set and no classes.
    pub fn new() -> (r: Self)
        ensures
            r.id is None,
            r.publisher_id is None,
            r.version is None,
            r.logo is None,
            r.display_name is None,
            r.publisher_display_name is None,
            r.description is None,
            r.executable is None,
            r.arguments is None,
            r.classes@ == Seq::<(String, Option<String>)>::empty(),
    {
        let r = AppxManifestBuilder {
            id: None,
            publisher_id: None,
            version: None,
            logo: None,
            display_name: None,
            publisher_display_name: None,
            description: None,
            executable: None,
            arguments: None,
            classes: Vec::new(),
        };
        proof {
            assert(r.classes@ =~= Seq::<(String, Option<String>)>::empty());
        }
        r
    }

    /// Sets the package identity name.
    pub fn id(self, id: &str) -> (r: Self)
        ensures
            r.id matches Some(v) && v@ == id@,
            r == (AppxManifestBuilder { id: r.id, ..self }),
    {
        AppxManifestBuilder { id: Some(id.to_owned()), ..self }
    }

    /// Sets the publisher identity.
    pub fn publisher_id(self, publisher_id: &str) -> (r: Self)
        ensures
            r.publisher_id matches Some(v) && v@ == publisher_id@,
            r == (AppxManifestBuilder { publisher_id: r.publisher_id, ..self }),
    {
        AppxManifestBuilder { publisher_id: Some(publisher_id.to_owned()), ..self }
    }

    /// Sets the four-part package version.
    pub fn version(self, version: &str) -> (r: Self)
        ensures
            r.version matches Some(v) && v@ == version@,
            r == (AppxManifestBuilder { version: r.version, ..self }),
    {
        AppxManifestBuilder { version: Some(version.to_owned()), ..self }
    }

    /// Sets the store logo asset path.
    pub fn logo(self, logo: &str) -> (r: Self)
        ensures
            r.logo matches Some(v) && v@ == logo@,
            r == (AppxManifestBuilder { logo: r.logo, ..self }),
    {
        AppxManifestBuilder { logo: Some(logo.to_owned()), ..self }
    }

    /// Sets the user-visible name.
    pub fn display_name(self, display_name: &str) -> (r: Self)
        ensures
            r.display_name matches Some(v) && v@ == display_name@,
            r == (AppxManifestBuilder { display_name: r.display_name, ..self }),
    {
        AppxManifestBuilder { display_name: Some(display_name.to_owned()), ..self }
    }

    /// Sets the user-visible publisher name.
    pub fn publisher_display_name(self, publisher_display_name: &str) -> (r: Self)
        ensures
            r.publisher_display_name matches Some(v) && v@ == publisher_display_name@,
            r == (AppxManifestBuilder { publisher_display_name: r.publisher_display_name, ..self }),
    {
        AppxManifestBuilder { publisher_display_name: Some(publisher_display_name.to_owned()), ..self }
    }

    /// Sets the user-visible description.
    pub fn description(self, description: &str) -> (r: Self)
        ensures
            r.description matches Some(v) && v@ == description@,
            r == (AppxManifestBuilder { description: r.description, ..self }),
    {
        AppxManifestBuilder { description: Some(description.to_owned()), ..self }
    }

    /// Sets the server executable's file name.
    pub fn executable(self, executable: &str) -> (r: Self)
        ensures
            r.executable matches Some(v) && v@ == executable@,
            r == (AppxManifestBuilder { executable: r.executable, ..self }),
    {
        AppxManifestBuilder { executable: Some(executable.to_owned()), ..self }
    }

    /// Sets the server start arguments.
    pub fn arguments(self, arguments: &str) -> (r: Self)
        ensures
            r.arguments matches Some(v) && v@ == arguments@,
            r == (AppxManifestBuilder { arguments: r.arguments, ..self }),
    {
        AppxManifestBuilder { arguments: Some(arguments.to_owned()), ..self }
    }

    /// Appends a served class by its identifier, with an optional display
    /// name.
    pub fn class(self, class_id: &str, display_name: Option<&str>) -> (r: Self)
        ensures
            r.classes@.len() == self.classes@.len() + 1,
            r.classes@.drop_last() == self.classes@,
            r.classes@.last().0@ == class_id@,
            match display_name {
                Some(d) => r.classes@.last().1 matches Some(x) && x@ == d@,
                None => r.classes@.last().1 is None,
            },
            r == (AppxManifestBuilder { classes: r.classes, ..self }),
    {
        let owned_display = match display_name {
            Some(d) => Some(d.to_owned()),
            None => None,
        };
        let mut classes = self.classes;
        classes.push((class_id.to_owned(), owned_display));
        AppxManifestBuilder { classes, ..self }
    }

    /// Appends a served class by its 128-bit identifier, rendered in the
    /// hyphenated form, with an optional display name.
    pub fn class_u128(self, class_id: u128, display_name: Option<&str>) -> (r: Self)
        ensures
            r.classes@.len() == self.classes@.len() + 1,
            r.classes@.drop_last() == self.classes@,
            r.classes@.last().0@ == uuid_chars(class_id),
            match display_name {
                Some(d) => r.classes@.last().1 matches Some(x) && x@ == d@,
                None => r.classes@.last().1 is None,
            },
            r == (AppxManifestBuilder { classes: r.classes, ..self }),
    {
        let rendered = uuid_string(class_id);
        self.class(rendered.as_str(), display_name)
    }

    /// Assembles the manifest, filling every unset field: the publisher
    /// falls back to `CN=Unknown`, the logo to `Assets\StoreLogo.png`, the
    /// display name to the identity name, the publisher display name to
    /// `Unknown`, the description to the display name, the arguments to
    /// `-RegisterAsComServer`, and each class's display name to the
    /// manifest's display name.
    pub fn build(self) -> (r: AppxManifest)
        requires
            self.id is Some,
            self.version is Some,
            self.executable is Some,
        ensures
            self.id matches Some(v) ==> r.id == v,
            match self.publisher_id {
                Some(v) => r.publisher_id == v,
                None => r.publisher_id@ == "CN=Unknown"@,
            },
            self.version matches Some(v) ==> r.version == v,
            match self.logo {
                Some(v) => r.logo == v,
                None => r.logo@ == r#"Assets\StoreLogo.png"#@,
            },
            match self.display_name {
                Some(v) => r.display_name == v,
                None => self.id matches Some(idv) && r.display_name == idv,
            },
            match self.publisher_display_name {
                Some(v) => r.publisher_display_name == v,
                None => r.publisher_display_name@ == "Unknown"@,
            },
            match self.description {
                Some(v) => r.description == v,
                None => r.description == r.display_name,
            },
            self.executable matches Some(v) ==> r.executable == v,
            match self.arguments {
                Some(v) => r.arguments == v,
                None => r.arguments@ == "-RegisterAsComServer"@,
            },
            r.classes@.len() == self.classes@.len(),
            forall|i: int|
                0 <= i < self.classes@.len() ==> (#[trigger] r.classes@[i]).0
                    == self.classes@[i].0 && (match self.classes@[i].1 {
                    Some(d) => r.classes@[i].1 == d,
                    None => r.classes@[i].1 == r.display_name,
                }),
    {
        let id = match self.id {
            Some(v) => v,
            None => String::new(),
        };
        let publisher_id = match self.publisher_id {
            Some(v) => v,
            None => "CN=Unknown".to_owned(),
        };
        let version = match self.version {
            Some(v) => v,
            None => String::new(),
        };
        let logo = match self.logo {
            Some(v) => v,
            None => r#"Assets\StoreLogo.png"#.to_owned(),
        };
        let display_name = match self.display_name {
            Some(v) => v,
            None => id.clone(),
        };
        let publisher_display_name = match self.publisher_display_name {
            Some(v) => v,
            None => "Unknown".to_owned(),
        };
        let description = match self.description {
            Some(v) => v,
            None => display_name.clone(),
        };
        let executable = match self.executable {
            Some(v) => v,
            None => String::new(),
        };
        let arguments = match self.arguments {
            Some(v) => v,
            None => "-RegisterAsComServer".to_owned(),
        };
        let mut classes: Vec<(String, String)> = Vec::new();
        let mut i: usize = 0;
        let source = self.classes;
        while i < source.len()
            invariant
                i <= source.len(),
                classes@.len() == i,
                forall|j: int|
                    0 <= j < i ==> (#[trigger] classes@[j]).0 == source@[j].0 && (
                    match source@[j].1 {
                        Some(d) => classes@[j].1 == d,
                        None => classes@[j].1 == display_name,
                    }),
            decreases source.len() - i,
        {
            let entry = &source[i];
            let display = match &entry.1 {
                Some(d) => d.clone(),
                None => display_name.clone(),
            };
            classes.push((entry.0.clone(), display));
            i += 1;
        }
        AppxManifest {
            id,
            publisher_id,
            version,
            logo,
            display_name,
            publisher_display_name,
            description,
            executable,
            arguments,
            classes,
        }
    }
}

impl Default for AppxManifestBuilder {
    fn default() -> (r: Self)
        ensures
            r.id is None,
            r.publisher_id is None,
            r.version is None,
            r.logo is None,
            r.display_name is None,
            r.publisher_display_name is None,
            r.description is None,
            r.executable is None,
            r.arguments is None,
            r.classes@ == Seq::<(String, Option<String>)>::empty(),
    {
        AppxManifestBuilder::new()
    }
}

/// The position of the first dash in `s`, or its length when it has none.
pub open spec fn dash_index(s: Seq<char>) -> int
    decreases s.len(),
{
    if s.len() == 0 {
        0
    } else if s[0] == '-' {
        0
    } else {
        1 + dash_index(s.drop_first())
    }
}

/// The first dash sits exactly where no dash comes before it.
proof fn lemma_dash_index_at(s: Seq<char>, k: int)
    requires
        0 <= k <= s.len(),
        forall|j: int| 0 <= j < k ==> s[j] != '-',
        k == s.len() || s[k] == '-',
    ensures
        dash_index(s) == k,
    decreases s.len(),
{
    if s.len() == 0 {
    } else if k == 0 {
    } else {
        assert(forall|j: int| 0 <= j < k - 1 ==> s.drop_first()[j] == s[j + 1]);
        lemma_dash_index_at(s.drop_first(), k - 1);
    }
}

/// Turns a package version into the four-part form a manifest wants: keeps
/// what comes before the first dash — dropping a pre-release suffix such as
/// `-alpha` — and appends a `.0` part.
pub fn normalize_version(version: &str) -> (r: String)
    ensures
        r@ == version@.take(dash_index(version@)) + ".0"@,
{
    broadcast use vstd::string::axiom_spec_iter;
    broadcast use vstd::string::next_postcondition;

    let mut out = String::new();
    let mut it = version.chars();
    let ghost total = version@;
    let ghost mut k: int = 0;
    proof {
        assert(total.skip(0) =~= total);
        assert(out@ =~= total.take(0));
    }
    loop
        invariant_except_break
            it.obeys_prophetic_iter_laws(),
            it.remaining() == total.skip(k),
        invariant
            0 <= k <= total.len(),
            out@ == total.take(k),
            forall|j: int| 0 <= j < k ==> total[j] != '-',
        ensures
            out@ == total.take(dash_index(total)),
        decreases total.len() - k,
    {
        let next = it.next();
        match next {
            None => {
                proof {
                    lemma_dash_index_at(total, k);
                }
                break;
            },
            Some(ch) => {
                proof {
                    assert(total.skip(k)[0] == total[k]);
                }
                if ch == '-' {
                    proof {
                        lemma_dash_index_at(total, k);
                    }
                    break;
                }
                out.push(ch);
                proof {
                    assert(total.take(k + 1) =~= total.take(k).push(total[k]));
                    assert(total.skip(k).drop_first() =~= total.skip(k + 1));
                    k = k + 1;
                }
            },
        }
    }
    out.push_str(".0");
    out
}

} // verus!
