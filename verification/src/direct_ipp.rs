//! Direct IPP backend: Ghostscript renders the PDF, the result goes to the
//! printer as an IPP Print-Job over HTTP(S), and the job is polled with
//! Get-Job-Attributes until the printer reports it completed, canceled or
//! aborted. This module holds the addressing, the document format, the
//! requests and the decisions taken on each response.
use vstd::prelude::*;

use crate::backend::{display_for, PrintJobInfo};
use crate::ipp::{
    build_get_job_attributes_request, build_print_job_request, first_named,
    get_job_attributes_request, print_job_request, value_i32, value_text, IppResponse,
};
use crate::job_event::{event_is, EventEmitter, PrintStage};
use crate::text::{chars_of, dec, eq_str, has_char, hex4, int_text, push_dec, push_hex4, push_int, push_str};

verus! {

/// The IPP `document-format` MIME type for a Ghostscript output device.
/// A printer rejects a document whose declared type it cannot print, so
/// page description languages get their registered types and only unknown
/// devices fall back to PWG raster.
pub open spec fn mime_for(d: Seq<char>) -> Seq<char> {
    if d == "urfrgb"@ || d == "urfcmyk"@ || d == "urfgray"@ {
        "image/urf"@
    } else if d == "pclm"@ || d == "pclm8"@ {
        "application/PCLm"@
    } else if d == "jpeg"@ || d == "jpeggray"@ || d == "jpegcmyk"@ {
        "image/jpeg"@
    } else if d == "png16m"@ || d == "pnggray"@ || d == "pngmono"@ || d == "pngalpha"@ {
        "image/png"@
    } else if d == "tiffg3"@ || d == "tiffg4"@ || d == "tiff24nc"@ || d == "tiff32nc"@ || d
        == "tiffgray"@ {
        "image/tiff"@
    } else if d == "bmp256"@ || d == "bmp16m"@ || d == "bmpmono"@ || d == "bmpgray"@ {
        "image/bmp"@
    } else if d == "pdfwrite"@ {
        "application/pdf"@
    } else if d == "ps2write"@ || d == "pswrite"@ {
        "application/postscript"@
    } else if d == "pxlmono"@ || d == "pxlcolor"@ {
        "application/vnd.hp-PCLXL"@
    } else if d == "ljet4"@ || d == "ljet4d"@ || d == "ljet2p"@ || d == "laserjet"@ || d
        == "cljet5"@ || d == "cljet5c"@ || d == "cljet5pr"@ || d == "pcl5e"@ || d == "pcl5c"@ {
        "application/vnd.hp-PCL"@
    } else {
        "image/pwg-raster"@
    }
}

/// Map a Ghostscript output-device name to the matching IPP
/// `document-format` MIME type (PCL XL is `application/vnd.hp-PCLXL`, the
/// IANA form without a hyphen; unknown devices get `image/pwg-raster`).
pub fn gs_device_to_ipp_mime(gs_device: &str) -> (r: &'static str)
    ensures
        r@ == mime_for(gs_device@),
{
    let d = chars_of(gs_device);
    let d = d.as_slice();
    if eq_str(d, "urfrgb") || eq_str(d, "urfcmyk") || eq_str(d, "urfgray") {
        "image/urf"
    } else if eq_str(d, "pclm") || eq_str(d, "pclm8") {
        "application/PCLm"
    } else if eq_str(d, "jpeg") || eq_str(d, "jpeggray") || eq_str(d, "jpegcmyk") {
        "image/jpeg"
    } else if eq_str(d, "png16m") || eq_str(d, "pnggray") || eq_str(d, "pngmono") || eq_str(
        d,
        "pngalpha",
    ) {
        "image/png"
    } else if eq_str(d, "tiffg3") || eq_str(d, "tiffg4") || eq_str(d, "tiff24nc") || eq_str(
        d,
        "tiff32nc",
    ) || eq_str(d, "tiffgray") {
        "image/tiff"
    } else if eq_str(d, "bmp256") || eq_str(d, "bmp16m") || eq_str(d, "bmpmono") || eq_str(
        d,
        "bmpgray",
    ) {
        "image/bmp"
    } else if eq_str(d, "pdfwrite") {
        "application/pdf"
    } else if eq_str(d, "ps2write") || eq_str(d, "pswrite") {
        "application/postscript"
    } else if eq_str(d, "pxlmono") || eq_str(d, "pxlcolor") {
        "application/vnd.hp-PCLXL"
    } else if eq_str(d, "ljet4") || eq_str(d, "ljet4d") || eq_str(d, "ljet2p") || eq_str(
        d,
        "laserjet",
    ) || eq_str(d, "cljet5") || eq_str(d, "cljet5c") || eq_str(d, "cljet5pr") || eq_str(
        d,
        "pcl5e",
    ) || eq_str(d, "pcl5c") {
        "application/vnd.hp-PCL"
    } else {
        "image/pwg-raster"
    }
}

/// The characters of every device name that [`mime_for`] compares.
proof fn lemma_device_name_chars()
    ensures
        "urfrgb"@ == seq!['u', 'r', 'f', 'r', 'g', 'b'],
        "urfcmyk"@ == seq!['u', 'r', 'f', 'c', 'm', 'y', 'k'],
        "urfgray"@ == seq!['u', 'r', 'f', 'g', 'r', 'a', 'y'],
        "pclm"@ == seq!['p', 'c', 'l', 'm'],
        "pclm8"@ == seq!['p', 'c', 'l', 'm', '8'],
        "jpeg"@ == seq!['j', 'p', 'e', 'g'],
        "jpeggray"@ == seq!['j', 'p', 'e', 'g', 'g', 'r', 'a', 'y'],
        "jpegcmyk"@ == seq!['j', 'p', 'e', 'g', 'c', 'm', 'y', 'k'],
        "png16m"@ == seq!['p', 'n', 'g', '1', '6', 'm'],
        "pnggray"@ == seq!['p', 'n', 'g', 'g', 'r', 'a', 'y'],
        "pngmono"@ == seq!['p', 'n', 'g', 'm', 'o', 'n', 'o'],
        "pngalpha"@ == seq!['p', 'n', 'g', 'a', 'l', 'p', 'h', 'a'],
        "tiffg3"@ == seq!['t', 'i', 'f', 'f', 'g', '3'],
        "tiffg4"@ == seq!['t', 'i', 'f', 'f', 'g', '4'],
        "tiff24nc"@ == seq!['t', 'i', 'f', 'f', '2', '4', 'n', 'c'],
        "tiff32nc"@ == seq!['t', 'i', 'f', 'f', '3', '2', 'n', 'c'],
        "tiffgray"@ == seq!['t', 'i', 'f', 'f', 'g', 'r', 'a', 'y'],
        "bmp256"@ == seq!['b', 'm', 'p', '2', '5', '6'],
        "bmp16m"@ == seq!['b', 'm', 'p', '1', '6', 'm'],
        "bmpmono"@ == seq!['b', 'm', 'p', 'm', 'o', 'n', 'o'],
        "bmpgray"@ == seq!['b', 'm', 'p', 'g', 'r', 'a', 'y'],
        "pdfwrite"@ == seq!['p', 'd', 'f', 'w', 'r', 'i', 't', 'e'],
        "ps2write"@ == seq!['p', 's', '2', 'w', 'r', 'i', 't', 'e'],
        "pswrite"@ == seq!['p', 's', 'w', 'r', 'i', 't', 'e'],
        "pxlmono"@ == seq!['p', 'x', 'l', 'm', 'o', 'n', 'o'],
        "pxlcolor"@ == seq!['p', 'x', 'l', 'c', 'o', 'l', 'o', 'r'],
        "ljet4"@ == seq!['l', 'j', 'e', 't', '4'],
        "ljet4d"@ == seq!['l', 'j', 'e', 't', '4', 'd'],
        "ljet2p"@ == seq!['l', 'j', 'e', 't', '2', 'p'],
        "laserjet"@ == seq!['l', 'a', 's', 'e', 'r', 'j', 'e', 't'],
        "cljet5"@ == seq!['c', 'l', 'j', 'e', 't', '5'],
        "cljet5c"@ == seq!['c', 'l', 'j', 'e', 't', '5', 'c'],
        "cljet5pr"@ == seq!['c', 'l', 'j', 'e', 't', '5', 'p', 'r'],
        "pcl5e"@ == seq!['p', 'c', 'l', '5', 'e'],
        "pcl5c"@ == seq!['p', 'c', 'l', '5', 'c'],
{
    reveal_strlit("urfrgb");
    reveal_strlit("urfcmyk");
    reveal_strlit("urfgray");
    reveal_strlit("pclm");
    reveal_strlit("pclm8");
    reveal_strlit("jpeg");
    reveal_strlit("jpeggray");
    reveal_strlit("jpegcmyk");
    reveal_strlit("png16m");
    reveal_strlit("pnggray");
    reveal_strlit("pngmono");
    reveal_strlit("pngalpha");
    reveal_strlit("tiffg3");
    reveal_strlit("tiffg4");
    reveal_strlit("tiff24nc");
    reveal_strlit("tiff32nc");
    reveal_strlit("tiffgray");
    reveal_strlit("bmp256");
    reveal_strlit("bmp16m");
    reveal_strlit("bmpmono");
    reveal_strlit("bmpgray");
    reveal_strlit("pdfwrite");
    reveal_strlit("ps2write");
    reveal_strlit("pswrite");
    reveal_strlit("pxlmono");
    reveal_strlit("pxlcolor");
    reveal_strlit("ljet4");
    reveal_strlit("ljet4d");
    reveal_strlit("ljet2p");
    reveal_strlit("laserjet");
    reveal_strlit("cljet5");
    reveal_strlit("cljet5c");
    reveal_strlit("cljet5pr");
    reveal_strlit("pcl5e");
    reveal_strlit("pcl5c");
    assert("urfrgb"@ =~= seq!['u', 'r', 'f', 'r', 'g', 'b']);
    assert("urfcmyk"@ =~= seq!['u', 'r', 'f', 'c', 'm', 'y', 'k']);
    assert("urfgray"@ =~= seq!['u', 'r', 'f', 'g', 'r', 'a', 'y']);
    assert("pclm"@ =~= seq!['p', 'c', 'l', 'm']);
    assert("pclm8"@ =~= seq!['p', 'c', 'l', 'm', '8']);
    assert("jpeg"@ =~= seq!['j', 'p', 'e', 'g']);
    assert("jpeggray"@ =~= seq!['j', 'p', 'e', 'g', 'g', 'r', 'a', 'y']);
    assert("jpegcmyk"@ =~= seq!['j', 'p', 'e', 'g', 'c', 'm', 'y', 'k']);
    assert("png16m"@ =~= seq!['p', 'n', 'g', '1', '6', 'm']);
    assert("pnggray"@ =~= seq!['p', 'n', 'g', 'g', 'r', 'a', 'y']);
    assert("pngmono"@ =~= seq!['p', 'n', 'g', 'm', 'o', 'n', 'o']);
    assert("pngalpha"@ =~= seq!['p', 'n', 'g', 'a', 'l', 'p', 'h', 'a']);
    assert("tiffg3"@ =~= seq!['t', 'i', 'f', 'f', 'g', '3']);
    assert("tiffg4"@ =~= seq!['t', 'i', 'f', 'f', 'g', '4']);
    assert("tiff24nc"@ =~= seq!['t', 'i', 'f', 'f', '2', '4', 'n', 'c']);
    assert("tiff32nc"@ =~= seq!['t', 'i', 'f', 'f', '3', '2', 'n', 'c']);
    assert("tiffgray"@ =~= seq!['t', 'i', 'f', 'f', 'g', 'r', 'a', 'y']);
    assert("bmp256"@ =~= seq!['b', 'm', 'p', '2', '5', '6']);
    assert("bmp16m"@ =~= seq!['b', 'm', 'p', '1', '6', 'm']);
    assert("bmpmono"@ =~= seq!['b', 'm', 'p', 'm', 'o', 'n', 'o']);
    assert("bmpgray"@ =~= seq!['b', 'm', 'p', 'g', 'r', 'a', 'y']);
    assert("pdfwrite"@ =~= seq!['p', 'd', 'f', 'w', 'r', 'i', 't', 'e']);
    assert("ps2write"@ =~= seq!['p', 's', '2', 'w', 'r', 'i', 't', 'e']);
    assert("pswrite"@ =~= seq!['p', 's', 'w', 'r', 'i', 't', 'e']);
    assert("pxlmono"@ =~= seq!['p', 'x', 'l', 'm', 'o', 'n', 'o']);
    assert("pxlcolor"@ =~= seq!['p', 'x', 'l', 'c', 'o', 'l', 'o', 'r']);
    assert("ljet4"@ =~= seq!['l', 'j', 'e', 't', '4']);
    assert("ljet4d"@ =~= seq!['l', 'j', 'e', 't', '4', 'd']);
    assert("ljet2p"@ =~= seq!['l', 'j', 'e', 't', '2', 'p']);
    assert("laserjet"@ =~= seq!['l', 'a', 's', 'e', 'r', 'j', 'e', 't']);
    assert("cljet5"@ =~= seq!['c', 'l', 'j', 'e', 't', '5']);
    assert("cljet5c"@ =~= seq!['c', 'l', 'j', 'e', 't', '5', 'c']);
    assert("cljet5pr"@ =~= seq!['c', 'l', 'j', 'e', 't', '5', 'p', 'r']);
    assert("pcl5e"@ =~= seq!['p', 'c', 'l', '5', 'e']);
    assert("pcl5c"@ =~= seq!['p', 'c', 'l', '5', 'c']);
}

/// Every classic PCL 5 device (`ljet4`, `ljet4d`, `ljet2p`, `laserjet`,
/// `cljet5`, `cljet5c`, `cljet5pr`, `pcl5e`, `pcl5c`) is declared as
/// `application/vnd.hp-PCL`, and the PCL XL devices (`pxlmono`,
/// `pxlcolor`) as `application/vnd.hp-PCLXL`.
pub proof fn law_pcl_devices_declare_pcl(d: Seq<char>)
    ensures
        (d == "ljet4"@ || d == "ljet4d"@ || d == "ljet2p"@ || d == "laserjet"@ || d == "cljet5"@
            || d == "cljet5c"@ || d == "cljet5pr"@ || d == "pcl5e"@ || d == "pcl5c"@) ==> mime_for(d)
            == "application/vnd.hp-PCL"@,
        (d == "pxlmono"@ || d == "pxlcolor"@) ==> mime_for(d) == "application/vnd.hp-PCLXL"@,
{
    lemma_device_name_chars();
}

/// The other known devices get their own formats: the URF devices
/// `image/urf`, the PCLm devices `application/PCLm`, the JPEG, PNG, TIFF and
/// BMP devices their image types, `pdfwrite` `application/pdf`, and
/// `ps2write`/`pswrite` `application/postscript`.
pub proof fn law_image_and_document_devices(d: Seq<char>)
    ensures
        (d == "urfrgb"@ || d == "urfcmyk"@ || d == "urfgray"@) ==> mime_for(d) == "image/urf"@,
        (d == "pclm"@ || d == "pclm8"@) ==> mime_for(d) == "application/PCLm"@,
        (d == "jpeg"@ || d == "jpeggray"@ || d == "jpegcmyk"@) ==> mime_for(d) == "image/jpeg"@,
        (d == "png16m"@ || d == "pnggray"@ || d == "pngmono"@ || d == "pngalpha"@) ==> mime_for(d)
            == "image/png"@,
        (d == "tiffg3"@ || d == "tiffg4"@ || d == "tiff24nc"@ || d == "tiff32nc"@ || d
            == "tiffgray"@) ==> mime_for(d) == "image/tiff"@,
        (d == "bmp256"@ || d == "bmp16m"@ || d == "bmpmono"@ || d == "bmpgray"@) ==> mime_for(d)
            == "image/bmp"@,
        d == "pdfwrite"@ ==> mime_for(d) == "application/pdf"@,
        (d == "ps2write"@ || d == "pswrite"@) ==> mime_for(d) == "application/postscript"@,
{
    lemma_device_name_chars();
}

/// Only a device that none of the tables above names falls back to PWG
/// raster.
pub proof fn law_only_unknown_devices_fall_back(d: Seq<char>)
    ensures
        mime_for(d) == "image/pwg-raster"@ ==> !(d == "urfrgb"@ || d == "urfcmyk"@ || d
            == "urfgray"@ || d == "pclm"@ || d == "pclm8"@ || d == "jpeg"@ || d == "jpeggray"@ || d
            == "jpegcmyk"@ || d == "png16m"@ || d == "pnggray"@ || d == "pngmono"@ || d
            == "pngalpha"@ || d == "tiffg3"@ || d == "tiffg4"@ || d == "tiff24nc"@ || d
            == "tiff32nc"@ || d == "tiffgray"@ || d == "bmp256"@ || d == "bmp16m"@ || d
            == "bmpmono"@ || d == "bmpgray"@ || d == "pdfwrite"@ || d == "ps2write"@ || d
            == "pswrite"@ || d == "pxlmono"@ || d == "pxlcolor"@ || d == "ljet4"@ || d == "ljet4d"@
            || d == "ljet2p"@ || d == "laserjet"@ || d == "cljet5"@ || d == "cljet5c"@ || d
            == "cljet5pr"@ || d == "pcl5e"@ || d == "pcl5c"@),
{
    law_pcl_devices_declare_pcl(d);
    law_image_and_document_devices(d);
    reveal_strlit("image/pwg-raster");
    reveal_strlit("image/urf");
    reveal_strlit("application/PCLm");
    reveal_strlit("image/jpeg");
    reveal_strlit("image/png");
    reveal_strlit("image/tiff");
    reveal_strlit("image/bmp");
    reveal_strlit("application/pdf");
    reveal_strlit("application/postscript");
    reveal_strlit("application/vnd.hp-PCLXL");
    reveal_strlit("application/vnd.hp-PCL");
    assert("image/pwg-raster"@.len() == 16);
    assert("image/urf"@.len() == 9);
    assert("application/PCLm"@.len() == 16);
    assert("image/jpeg"@.len() == 10);
    assert("image/png"@.len() == 9);
    assert("image/tiff"@.len() == 10);
    assert("image/bmp"@.len() == 9);
    assert("application/pdf"@.len() == 15);
    assert("application/postscript"@.len() == 22);
    assert("application/vnd.hp-PCLXL"@.len() == 24);
    assert("application/vnd.hp-PCL"@.len() == 22);
    assert("image/pwg-raster"@[0] == 'i');
    assert("application/PCLm"@[0] == 'a');
}

/// The printer address with the IPP default port: unchanged when it has a
/// port (`host:port`) or a path (`host/path`), else with `:631` appended.
/// A bare IPv6 literal counts as having a port; deployments use IPv4.
pub open spec fn normalized(address: Seq<char>) -> Seq<char> {
    if address.contains(':') || address.contains('/') {
        address
    } else {
        address + ":631"@
    }
}

/// `scheme://address`, with `/ipp/print` appended when the address has no path.
pub open spec fn endpoint(scheme: Seq<char>, address: Seq<char>) -> Seq<char> {
    let a = normalized(address);
    scheme + "://"@ + a + (if a.contains('/') {
        Seq::<char>::empty()
    } else {
        "/ipp/print"@
    })
}

/// Direct IPP backend: Ghostscript renders the PDF to raster, sent via IPP Print-Job.
#[derive(Debug)]
pub struct DirectIpp {
    address: String,
    gs_device: String,
    gs_resolution: u32,
    use_tls: bool,
}

impl DirectIpp {
    pub closed spec fn address_spec(&self) -> Seq<char> {
        self.address@
    }

    pub closed spec fn device_spec(&self) -> Seq<char> {
        self.gs_device@
    }

    pub closed spec fn resolution_spec(&self) -> u32 {
        self.gs_resolution
    }

    pub closed spec fn tls_spec(&self) -> bool {
        self.use_tls
    }

    pub fn new(address: String, gs_device: String, gs_resolution: u32, use_tls: bool) -> (r: Self)
        ensures
            r.address_spec() == address@,
            r.device_spec() == gs_device@,
            r.resolution_spec() == gs_resolution,
            r.tls_spec() == use_tls,
    {
        DirectIpp { address, gs_device, gs_resolution, use_tls }
    }

    pub fn name(&self) -> (r: &'static str)
        ensures
            r@ == "direct_ipp"@,
    {
        "direct_ipp"
    }

    pub fn address(&self) -> (r: &str)
        ensures
            r@ == self.address_spec(),
    {
        self.address.as_str()
    }

    pub fn gs_device(&self) -> (r: &str)
        ensures
            r@ == self.device_spec(),
    {
        self.gs_device.as_str()
    }

    pub fn gs_resolution(&self) -> (r: u32)
        ensures
            r == self.resolution_spec(),
    {
        self.gs_resolution
    }

    pub fn use_tls(&self) -> (r: bool)
        ensures
            r == self.tls_spec(),
    {
        self.use_tls
    }

    /// Returns `address` unchanged if it already contains a port (`host:port`)
    /// or a path (`host/path`); otherwise appends `:631`, the default IPP
    /// port (RFC 8011).
    pub fn normalized_address(&self) -> (r: String)
        ensures
            r@ == normalized(self.address_spec()),
    {
        let a = chars_of(self.address.as_str());
        if has_char(a.as_slice(), ':') || has_char(a.as_slice(), '/') {
            self.address.clone()
        } else {
            let mut s = self.address.clone();
            push_str(&mut s, ":631");
            s
        }
    }

    fn endpoint_for(&self, scheme: &str) -> (r: String)
        ensures
            r@ == endpoint(scheme@, self.address_spec()),
    {
        let addr = self.normalized_address();
        let a = chars_of(addr.as_str());
        let mut s = String::new();
        push_str(&mut s, scheme);
        push_str(&mut s, "://");
        push_str(&mut s, addr.as_str());
        if !has_char(a.as_slice(), '/') {
            push_str(&mut s, "/ipp/print");
        }
        s
    }

    /// The HTTP(S) URL the IPP requests are posted to.
    pub fn ipp_url(&self) -> (r: String)
        ensures
            r@ == endpoint(if self.tls_spec() { "https"@ } else { "http"@ }, self.address_spec()),
    {
        if self.use_tls {
            self.endpoint_for("https")
        } else {
            self.endpoint_for("http")
        }
    }

    /// The `printer-uri` operation attribute (`ipp://` or `ipps://`).
    pub fn printer_uri(&self) -> (r: String)
        ensures
            r@ == endpoint(if self.tls_spec() { "ipps"@ } else { "ipp"@ }, self.address_spec()),
    {
        if self.use_tls {
            self.endpoint_for("ipps")
        } else {
            self.endpoint_for("ipp")
        }
    }

    /// The Print-Job request header for a rendered page of `job`, declaring
    /// the device's document format and the job's copy count; the rendered
    /// data follows it.
    pub fn print_job_header(&self, job: &PrintJobInfo) -> (r: Vec<u8>)
        ensures
            r@ == print_job_request(
                endpoint(if self.tls_spec() { "ipps"@ } else { "ipp"@ }, self.address_spec()),
                mime_for(self.device_spec()),
                job.document_name@,
                1,
                job.copies,
            ),
    {
        let uri = self.printer_uri();
        let format = gs_device_to_ipp_mime(self.gs_device.as_str());
        build_print_job_request(uri.as_str(), format, job.document_name.as_str(), 1, job.copies)
    }

    /// The Get-Job-Attributes request of one poll of printer job `printer_job_id`.
    pub fn poll_request(&self, printer_job_id: u32, request_id: u32) -> (r: Vec<u8>)
        ensures
            r@ == get_job_attributes_request(
                endpoint(if self.tls_spec() { "ipps"@ } else { "ipp"@ }, self.address_spec()),
                printer_job_id as i32,
                request_id,
            ),
    {
        let uri = self.printer_uri();
        build_get_job_attributes_request(uri.as_str(), printer_job_id as i32, request_id)
    }

    /// Emits the `Sending` event of a page: `IPP Print-Job → <display> (<address>)`.
    pub fn record_sending(&self, events: &mut EventEmitter, job_id: &str, display: &str)
        ensures
            final(events).emitted().len() == old(events).emitted().len() + 1,
            final(events).emitted().drop_last() == old(events).emitted(),
            event_is(
                final(events).emitted().last(),
                job_id@,
                PrintStage::Sending,
                true,
                "IPP Print-Job → "@ + display@ + " ("@ + self.address_spec() + ")"@,
                Seq::<char>::empty(),
                Seq::<char>::empty(),
            ),
    {
        let mut d = String::new();
        push_str(&mut d, "IPP Print-Job → ");
        push_str(&mut d, display);
        push_str(&mut d, " (");
        push_str(&mut d, self.address.as_str());
        push_str(&mut d, ")");
        events.emit_ok(job_id, PrintStage::Sending, d.as_str());
    }
}

} // verus!

verus! {

// ---------------------------------------------------------------------------
// Responses
// ---------------------------------------------------------------------------

/// The value of the first attribute named `name`, read as an `i32`.
pub open spec fn attr_i32(resp: IppResponse, name: Seq<char>) -> Option<int> {
    let k = first_named(resp.attrs(), name);
    if k < resp.attrs().len() {
        value_i32(resp.attrs()[k as int].2)
    } else {
        None
    }
}

/// The value of the first attribute named `name`, read as UTF-8 text.
pub open spec fn attr_text(resp: IppResponse, name: Seq<char>) -> Option<Seq<char>> {
    let k = first_named(resp.attrs(), name);
    if k < resp.attrs().len() {
        value_text(resp.attrs()[k as int].2)
    } else {
        None
    }
}

/// An `i32` attribute, 0 when it is missing or not four bytes long.
pub open spec fn i32_or_zero(resp: IppResponse, name: Seq<char>) -> int {
    match attr_i32(resp, name) {
        Some(v) => v,
        None => 0,
    }
}

fn get_i32_or_zero(resp: &IppResponse, name: &str) -> (r: i32)
    ensures
        r as int == i32_or_zero(*resp, name@),
{
    match resp.get(name) {
        Some(a) => match a.as_i32() {
            Some(v) => v,
            None => 0,
        },
        None => 0,
    }
}

/// The `job-state-reasons` of a poll response, `none` when missing or not text.
pub open spec fn reasons_of(resp: IppResponse) -> Seq<char> {
    match attr_text(resp, "job-state-reasons"@) {
        Some(t) => t,
        None => "none"@,
    }
}

/// The detail of a Print-Job response with an error status.
pub open spec fn status_error_detail(status_code: u16) -> Seq<char> {
    "IPP error status: 0x"@ + hex4(status_code)
}

/// Acts on the response to a Print-Job request: an error status fails the
/// job (a `Failed` event, `Err` with its detail); otherwise the printer's
/// `job-id` (0 when missing) is returned and an `Acknowledged` event emitted.
pub fn record_print_job_response(events: &mut EventEmitter, job_id: &str, display: &str, resp: &IppResponse) -> (r: Result<u32, String>)
    ensures
        final(events).emitted().len() == old(events).emitted().len() + 1,
        final(events).emitted().drop_last() == old(events).emitted(),
        resp.status_code > 0xFF ==> {
            &&& r matches Err(e) && e@ == status_error_detail(resp.status_code)
            &&& event_is(
                final(events).emitted().last(),
                job_id@,
                PrintStage::Failed,
                false,
                status_error_detail(resp.status_code),
                Seq::<char>::empty(),
                Seq::<char>::empty(),
            )
        },
        resp.status_code <= 0xFF ==> {
            let id = i32_or_zero(*resp, "job-id"@) as u32;
            &&& r == Ok::<u32, String>(id)
            &&& event_is(
                final(events).emitted().last(),
                job_id@,
                PrintStage::Acknowledged,
                true,
                display@ + " accepted job-id="@ + dec(id as nat) + ", processing"@,
                Seq::<char>::empty(),
                Seq::<char>::empty(),
            )
        },
{
    if !resp.is_success() {
        let mut d = String::new();
        push_str(&mut d, "IPP error status: 0x");
        push_hex4(&mut d, resp.status_code);
        events.emit_fail(job_id, PrintStage::Failed, d.as_str());
        return Err(d);
    }
    let id = get_i32_or_zero(resp, "job-id") as u32;
    let mut d = String::new();
    push_str(&mut d, display);
    push_str(&mut d, " accepted job-id=");
    push_dec(&mut d, id as u64);
    push_str(&mut d, ", processing");
    events.emit_ok(job_id, PrintStage::Acknowledged, d.as_str());
    Ok(id)
}

/// What one Get-Job-Attributes poll leads to.
#[derive(Debug)]
pub enum IppPoll {
    /// The job is over: `Ok` printed, `Err` with the failure evidence.
    Done(Result<(), String>),
    /// The job is still pending or processing; poll again.
    Continue,
}

/// How long the job state is polled, in seconds.
pub const POLL_TIMEOUT_SECS: u64 = 60;

/// Evidence of a completed job.
pub open spec fn completed_evidence(printer_job_id: u32) -> Seq<char> {
    "IPP job-state=9 (completed), job-id="@ + dec(printer_job_id as nat)
}

/// Evidence of a job the printer canceled (7) or aborted (8).
pub open spec fn stopped_evidence(state: int, printer_job_id: u32, reasons: Seq<char>) -> Seq<char> {
    "IPP job-state="@ + int_text(state) + " ("@ + (if state == 7 {
        "canceled"@
    } else {
        "aborted"@
    }) + "), job-id="@ + dec(printer_job_id as nat) + ", reasons="@ + reasons
}

/// The evidence of a stopped job names the IPP state: 7 is a job the
/// printer canceled, 8 one it aborted.
pub proof fn law_stopped_evidence_names_state(printer_job_id: u32, reasons: Seq<char>)
    ensures
        stopped_evidence(7, printer_job_id, reasons) == "IPP job-state=7 (canceled), job-id="@ + dec(
            printer_job_id as nat,
        ) + ", reasons="@ + reasons,
        stopped_evidence(8, printer_job_id, reasons) == "IPP job-state=8 (aborted), job-id="@ + dec(
            printer_job_id as nat,
        ) + ", reasons="@ + reasons,
{
    reveal_strlit("IPP job-state=");
    reveal_strlit(" (");
    reveal_strlit("canceled");
    reveal_strlit("aborted");
    reveal_strlit("), job-id=");
    reveal_strlit("IPP job-state=7 (canceled), job-id=");
    reveal_strlit("IPP job-state=8 (aborted), job-id=");
    let id = dec(printer_job_id as nat);
    let tail = ", reasons="@ + reasons;
    assert(int_text(7) =~= seq!['7']);
    assert(int_text(8) =~= seq!['8']);
    assert("IPP job-state="@ + int_text(7) + " ("@ + "canceled"@ + "), job-id="@ + id + tail
        =~= "IPP job-state=7 (canceled), job-id="@ + id + tail);
    assert("IPP job-state="@ + int_text(8) + " ("@ + "aborted"@ + "), job-id="@ + id + tail
        =~= "IPP job-state=8 (aborted), job-id="@ + id + tail);
}

/// Evidence of a job still unfinished when polling gave up.
pub open spec fn poll_timeout_evidence(printer_job_id: u32, state: int) -> Seq<char> {
    "IPP job-state polling timeout after "@ + dec(POLL_TIMEOUT_SECS as nat) + "s, job-id="@ + dec(
        printer_job_id as nat,
    ) + ", last state="@ + int_text(state)
}

/// Acts on one Get-Job-Attributes response for printer job
/// `printer_job_id` (IPP job states: 3 pending, 5 processing, 7 canceled,
/// 8 aborted, 9 completed; a missing `job-state` reads as 0): 9 confirms
/// the job (`Verified`, then `Completed`), 7 and 8 fail it, any other state
/// fails it once `past_deadline` and otherwise asks for another poll.
pub fn record_job_state(
    events: &mut EventEmitter,
    job_id: &str,
    printer_job_id: u32,
    display: &str,
    resp: &IppResponse,
    past_deadline: bool,
) -> (r: IppPoll)
    ensures
        ({
            let state = i32_or_zero(*resp, "job-state"@);
            let n = old(events).emitted().len();
            if state == 9 {
                &&& r matches IppPoll::Done(Ok(()))
                &&& final(events).emitted().len() == n + 2
                &&& final(events).emitted().take(n as int) == old(events).emitted()
                &&& event_is(
                    final(events).emitted()[n as int],
                    job_id@,
                    PrintStage::Verified,
                    true,
                    completed_evidence(printer_job_id),
                    "ipp_job_state"@,
                    completed_evidence(printer_job_id),
                )
                &&& event_is(
                    final(events).emitted()[n + 1 as int],
                    job_id@,
                    PrintStage::Completed,
                    true,
                    display@ + " confirmed printed"@,
                    Seq::<char>::empty(),
                    Seq::<char>::empty(),
                )
            } else if state == 7 || state == 8 || past_deadline {
                let ev = if state == 7 || state == 8 {
                    stopped_evidence(state, printer_job_id, reasons_of(*resp))
                } else {
                    poll_timeout_evidence(printer_job_id, state)
                };
                &&& r matches IppPoll::Done(Err(e)) && e@ == ev
                &&& final(events).emitted().len() == n + 1
                &&& final(events).emitted().drop_last() == old(events).emitted()
                &&& event_is(
                    final(events).emitted().last(),
                    job_id@,
                    PrintStage::Failed,
                    false,
                    ev,
                    "ipp_job_state"@,
                    ev,
                )
            } else {
                &&& r is Continue
                &&& final(events).emitted() == old(events).emitted()
            }
        }),
{
    let state = get_i32_or_zero(resp, "job-state");
    if state == 9 {
        let ghost n = events.emitted().len();
        let mut ev = String::new();
        push_str(&mut ev, "IPP job-state=9 (completed), job-id=");
        push_dec(&mut ev, printer_job_id as u64);
        events.emit_verified(job_id, "ipp_job_state", ev.as_str());
        let mut d = String::new();
        push_str(&mut d, display);
        push_str(&mut d, " confirmed printed");
        events.emit_ok(job_id, PrintStage::Completed, d.as_str());
        assert(events.emitted().take(n as int) =~= old(events).emitted());
        assert(events.emitted()[n as int] == events.emitted().drop_last().last());
        return IppPoll::Done(Ok(()));
    }
    if state == 7 || state == 8 {
        let reasons: String = match resp.get("job-state-reasons") {
            Some(a) => match a.as_str() {
                Some(t) => t.to_owned(),
                None => "none".to_owned(),
            },
            None => "none".to_owned(),
        };
        let mut ev = String::new();
        push_str(&mut ev, "IPP job-state=");
        push_int(&mut ev, state as i64);
        push_str(&mut ev, if state == 7 { " (canceled)" } else { " (aborted)" });
        push_str(&mut ev, ", job-id=");
        push_dec(&mut ev, printer_job_id as u64);
        push_str(&mut ev, ", reasons=");
        push_str(&mut ev, reasons.as_str());
        proof {
            reveal_strlit(" (canceled)");
            reveal_strlit(" (aborted)");
            reveal_strlit(" (");
            reveal_strlit("canceled");
            reveal_strlit("aborted");
            reveal_strlit("), job-id=");
            reveal_strlit(", job-id=");
            reveal_strlit(")");
        }
        assert(ev@ =~= stopped_evidence(state as int, printer_job_id, reasons_of(*resp)));
        events.emit_unverified(job_id, ev.as_str(), "ipp_job_state", ev.as_str());
        return IppPoll::Done(Err(ev));
    }
    if past_deadline {
        let mut ev = String::new();
        push_str(&mut ev, "IPP job-state polling timeout after ");
        push_dec(&mut ev, POLL_TIMEOUT_SECS);
        push_str(&mut ev, "s, job-id=");
        push_dec(&mut ev, printer_job_id as u64);
        push_str(&mut ev, ", last state=");
        push_int(&mut ev, state as i64);
        events.emit_unverified(job_id, ev.as_str(), "ipp_job_state", ev.as_str());
        return IppPoll::Done(Err(ev));
    }
    IppPoll::Continue
}

/// The detail of a poll stopped because the outer print timeout fired.
pub open spec fn poll_cancelled_detail() -> Seq<char> {
    "IPP poll cancelled by outer print timeout"@
}

/// Fails a poll that observed cancellation: emits the `Failed` event and
/// returns its detail.
pub fn record_poll_cancelled(events: &mut EventEmitter, job_id: &str) -> (r: String)
    ensures
        r@ == poll_cancelled_detail(),
        final(events).emitted().len() == old(events).emitted().len() + 1,
        final(events).emitted().drop_last() == old(events).emitted(),
        event_is(
            final(events).emitted().last(),
            job_id@,
            PrintStage::Failed,
            false,
            poll_cancelled_detail(),
            Seq::<char>::empty(),
            Seq::<char>::empty(),
        ),
{
    let d = "IPP poll cancelled by outer print timeout";
    events.emit_fail(job_id, PrintStage::Failed, d);
    d.to_owned()
}

} // verus!
