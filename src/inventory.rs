//! Device inventory: the list of serial ports and the board report built
//! from the first port and the device registry's hardware ids.
use vstd::prelude::*;

verus! {

/// Why a board report could not be made.
#[derive(Debug, PartialEq, Eq)]
pub enum InventoryError {
    /// Port enumeration failed, with the reason given.
    Enumeration(String),
    /// Enumeration found no port.
    NoPorts,
}

/// The one entry of the port list when no port can be shown.
pub open spec fn no_ports_sentinel() -> Seq<char> {
    "No ports found"@
}

/// The port list for an enumeration outcome: the names found, or the single
/// sentinel entry when enumeration failed or found nothing.
pub fn port_list_or_sentinel(found: Result<Vec<String>, String>) -> (r: Vec<String>)
    ensures
        found matches Ok(v) ==> (v@.len() > 0 ==> r@ == v@),
        found is Err || found->Ok_0@.len() == 0 ==> (r@.len() == 1 && r@[0]@ == no_ports_sentinel()),
{
    match found {
        Ok(v) => {
            if v.len() > 0 {
                v
            } else {
                vec![String::from_str("No ports found")]
            }
        },
        Err(_) => vec![String::from_str("No ports found")],
    }
}

/// Separators between the fields of a hardware id.
pub open spec fn is_separator(c: char) -> bool {
    c == '&' || c == ';'
}

/// The fields of a hardware id, split at every separator; there is always at
/// least one field, and fields may be empty.
pub open spec fn id_fields(s: Seq<char>) -> Seq<Seq<char>>
    decreases s.len(),
{
    if s.len() == 0 {
        seq![Seq::<char>::empty()]
    } else {
        let prev = id_fields(s.drop_last());
        if is_separator(s.last()) {
            prev.push(Seq::<char>::empty())
        } else {
            prev.update(prev.len() - 1, prev.last().push(s.last()))
        }
    }
}

/// The prefix of a vendor-id field.
pub open spec fn vendor_tag() -> Seq<char> {
    seq!['V', 'I', 'D', '_']
}

/// The prefix of a product-id field.
pub open spec fn product_tag() -> Seq<char> {
    seq!['P', 'I', 'D', '_']
}

/// The report line for one field: `VID: x` for a field `VID_x`, `PID: x` for
/// a field `PID_x`, nothing for any other field.
pub open spec fn field_line(f: Seq<char>) -> Seq<char> {
    if f.len() >= 4 && f.take(4) == vendor_tag() {
        seq!['V', 'I', 'D', ':', ' '] + f.skip(4) + seq!['\n']
    } else if f.len() >= 4 && f.take(4) == product_tag() {
        seq!['P', 'I', 'D', ':', ' '] + f.skip(4) + seq!['\n']
    } else {
        Seq::empty()
    }
}

/// The report lines of a sequence of fields, in order.
pub open spec fn fields_lines(fields: Seq<Seq<char>>) -> Seq<char>
    decreases fields.len(),
{
    if fields.len() == 0 {
        Seq::empty()
    } else {
        fields_lines(fields.drop_last()) + field_line(fields.last())
    }
}

/// The report lines of one hardware id.
pub open spec fn hardware_id_text(s: Seq<char>) -> Seq<char> {
    fields_lines(id_fields(s))
}

/// Whether `field` begins with the four characters `tag`, `I`, `D`, `_`.
fn has_tag(field: &str, tag: char) -> (r: bool)
    ensures
        r == (field@.len() >= 4 && field@.take(4) == seq![tag, 'I', 'D', '_']),
{
    let n = field.unicode_len();
    if n < 4 {
        return false;
    }
    let r = field.get_char(0) == tag && field.get_char(1) == 'I' && field.get_char(2) == 'D'
        && field.get_char(3) == '_';
    assert(r ==> field@.take(4) =~= seq![tag, 'I', 'D', '_']);
    assert(field@.take(4) == seq![tag, 'I', 'D', '_'] ==> field@.take(4)[0] == tag);
    r
}

/// The report line of one field of a hardware id.
pub fn field_report_line(field: &str) -> (r: String)
    ensures
        r@ == field_line(field@),
{
    let vendor = has_tag(field, 'V');
    let product = has_tag(field, 'P');
    if vendor || product {
        let n = field.unicode_len();
        let mut line = if vendor {
            String::from_str("VID: ")
        } else {
            String::from_str("PID: ")
        };
        proof {
            reveal_strlit("VID: ");
            reveal_strlit("PID: ");
            reveal_strlit("\n");
        }
        line.append(field.substring_char(4, n));
        line.append("\n");
        assert(field@.skip(4) =~= field@.subrange(4, n as int));
        if vendor {
            assert(line@ =~= seq!['V', 'I', 'D', ':', ' '] + field@.skip(4) + seq!['\n']);
        } else {
            assert(field@.take(4) != vendor_tag()) by {
                assert(field@.take(4)[0] != vendor_tag()[0]);
            }
            assert(line@ =~= seq!['P', 'I', 'D', ':', ' '] + field@.skip(4) + seq!['\n']);
        }
        line
    } else {
        String::new()
    }
}

/// The report lines of one hardware id: a `VID: ` line for each field
/// `VID_x` and a `PID: ` line for each field `PID_x`, in order of the fields.
pub fn hardware_id_lines(hardware_id: &str) -> (r: String)
    ensures
        r@ == hardware_id_text(hardware_id@),
{
    let ghost s = hardware_id@;
    let n = hardware_id.unicode_len();
    let mut done = String::new();
    let mut start: usize = 0;
    let mut i: usize = 0;
    proof {
        assert(s.take(0) =~= Seq::<char>::empty());
        assert(id_fields(s.take(0)).drop_last() =~= Seq::<Seq<char>>::empty());
    }
    while i < n
        invariant
            n == s.len(),
            s == hardware_id@,
            start <= i <= n,
            id_fields(s.take(i as int)).len() >= 1,
            id_fields(s.take(i as int)).last() == s.subrange(start as int, i as int),
            done@ == fields_lines(id_fields(s.take(i as int)).drop_last()),
        decreases n - i,
    {
        let c = hardware_id.get_char(i);
        let ghost prev = id_fields(s.take(i as int));
        assert(s.take(i + 1).drop_last() =~= s.take(i as int));
        assert(s.take(i + 1).last() == c);
        if c == '&' || c == ';' {
            let field = hardware_id.substring_char(start, i);
            let line = field_report_line(field);
            done.append(line.as_str());
            proof {
                let next = prev.push(Seq::<char>::empty());
                assert(id_fields(s.take(i + 1)) == next);
                assert(next.drop_last() =~= prev);
                assert(prev =~= prev.drop_last().push(prev.last()));
                assert(fields_lines(prev) == fields_lines(prev.drop_last()) + field_line(prev.last()));
                assert(s.subrange(i + 1, i + 1) =~= Seq::<char>::empty());
            }
            start = i + 1;
        } else {
            proof {
                let next = prev.update(prev.len() - 1, prev.last().push(c));
                assert(id_fields(s.take(i + 1)) == next);
                assert(next.drop_last() =~= prev.drop_last());
                assert(s.subrange(start as int, i + 1) =~= s.subrange(start as int, i as int).push(c));
            }
        }
        i = i + 1;
    }
    let field = hardware_id.substring_char(start, n);
    let line = field_report_line(field);
    done.append(line.as_str());
    proof {
        let all = id_fields(s.take(n as int));
        assert(s.take(n as int) =~= s);
        assert(all =~= all.drop_last().push(all.last()));
    }
    done
}

/// The report lines of a sequence of hardware ids, in order.
pub open spec fn ids_text(ids: Seq<String>) -> Seq<char>
    decreases ids.len(),
{
    if ids.len() == 0 {
        Seq::empty()
    } else {
        ids_text(ids.drop_last()) + hardware_id_text(ids.last()@)
    }
}

/// What the device registry adds to a report: the lines of every hardware id
/// it returned, or one line saying why it could not be read.
pub open spec fn enrichment_text(registry: Result<Vec<String>, String>) -> Seq<char> {
    match registry {
        Ok(ids) => ids_text(ids@),
        Err(e) => "Error fetching device info: "@ + e@ + "\n"@,
    }
}

/// The first lines of a report on the port `name`; the name is given twice,
/// under two labels.
pub open spec fn header_text(name: Seq<char>) -> Seq<char> {
    "Device Name: "@ + name + "\n"@ + "Port Number: "@ + name + "\n"@ + "BN: Unknown board\n"@
}

/// The whole report on the port `name`.
pub open spec fn report_text(name: Seq<char>, registry: Result<Vec<String>, String>) -> Seq<char> {
    header_text(name) + enrichment_text(registry)
}

/// The report lines of every hardware id, in order.
pub fn ids_lines(ids: &Vec<String>) -> (r: String)
    ensures
        r@ == ids_text(ids@),
{
    let mut out = String::new();
    let mut i: usize = 0;
    proof {
        assert(ids@.take(0) =~= Seq::<String>::empty());
    }
    while i < ids.len()
        invariant
            i <= ids.len(),
            out@ == ids_text(ids@.take(i as int)),
        decreases ids.len() - i,
    {
        let line = hardware_id_lines(ids[i].as_str());
        out.append(line.as_str());
        assert(ids@.take(i + 1).drop_last() =~= ids@.take(i as int));
        i = i + 1;
    }
    assert(ids@.take(ids.len() as int) =~= ids@);
    out
}

/// The report on the port `name`, enriched with what the device registry
/// returned; a registry failure becomes a line of the report.
pub fn port_report(name: &str, registry: &Result<Vec<String>, String>) -> (r: String)
    ensures
        r@ == report_text(name@, *registry),
{
    let mut report = String::from_str("Device Name: ");
    report.append(name);
    report.append("\n");
    report.append("Port Number: ");
    report.append(name);
    report.append("\n");
    report.append("BN: Unknown board\n");
    match registry {
        Ok(ids) => {
            let lines = ids_lines(ids);
            report.append(lines.as_str());
        },
        Err(e) => {
            report.append("Error fetching device info: ");
            report.append(e.as_str());
            report.append("\n");
        },
    }
    assert(report@ =~= report_text(name@, *registry));
    report
}

/// The port a board report is made on: the first one enumerated. A failed
/// enumeration and an empty one are errors.
pub fn first_port(enumerated: &Result<Vec<String>, String>) -> (r: Result<String, InventoryError>)
    ensures
        *enumerated matches Err(e) ==> r == Err::<String, InventoryError>(
            InventoryError::Enumeration(e),
        ),
        *enumerated matches Ok(ports) ==> (ports@.len() == 0 ==> r == Err::<String, InventoryError>(
            InventoryError::NoPorts,
        )),
        *enumerated matches Ok(ports) ==> (ports@.len() > 0 ==> (r matches Ok(name) && name@
            == ports@[0]@)),
{
    match enumerated {
        Err(e) => Err(InventoryError::Enumeration(e.clone())),
        Ok(ports) => {
            if ports.len() == 0 {
                Err(InventoryError::NoPorts)
            } else {
                Ok(ports[0].clone())
            }
        },
    }
}

/// The board report on the first of `ports`, enriched with what the device
/// registry returned. A registry failure becomes a line of the report; only
/// an empty port list is an error.
pub fn board_report(ports: &Vec<String>, registry: &Result<Vec<String>, String>) -> (r: Result<
    String,
    InventoryError,
>)
    ensures
        ports@.len() == 0 ==> r == Err::<String, InventoryError>(InventoryError::NoPorts),
        ports@.len() > 0 ==> (r matches Ok(t) && t@ == report_text(ports@[0]@, *registry)),
{
    if ports.len() == 0 {
        return Err(InventoryError::NoPorts);
    }
    Ok(port_report(ports[0].as_str(), registry))
}

} // verus!
