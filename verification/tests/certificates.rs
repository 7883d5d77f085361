const RSA2048_CRT: &str = "\
-----BEGIN CERTIFICATE-----\n\
MIIDDzCCAfegAwIBAgIUA6tBrhPRXDuTZkrnGcZk1Kdpr98wDQYJKoZIhvcNAQEL\n\
BQAwFzEVMBMGA1UEAwwMcnNhMjA0OC50ZXN0MB4XDTI2MTExODA2Mzg1NVoXDTM2\n\
MTExNTA2Mzg1NVowFzEVMBMGA1UEAwwMcnNhMjA0OC50ZXN0MIIBIjANBgkqhkiG\n\
9w0BAQEFAAOCAQ8AMIIBCgKCAQEAuBJUQSUWq0oNHAKpVD5eJ2Oyb8dX16u/bBKq\n\
Imk9ctYh7TB3q1M6jVi+yUAIsuO2hhgt/es9qzkoIlWY+XvqILm21NzuSaIhcIZK\n\
/uGxbYltJrXISX8/zFA4bYYM438wl2IKN62AEUb2Xf2a15CcsJUqQm6maWMJ1Vqw\n\
CdpjKgbVEogAPuHNobPIW+3uB4OTiMIs4oixbAGj5qD5+r4bN3mHo0lHbAWtBqaZ\n\
X+PgHTX4UiFKKkyOTQ6H+V9MHDaoWE1B4VMDYvnY9HDEEvkbIgGE4GkUoOc7tvFw\n\
CFDA2ZMibePfIUs9ZFE+/Jjdf0KkU12K3l1zCiRsko8ZjTdChQIDAQABo1MwUTAd\n\
BgNVHQ4EFgQUwLfnHea4cdM50NXQeCDCEa/TfS8wHwYDVR0jBBgwFoAUwLfnHea4\n\
cdM50NXQeCDCEa/TfS8wDwYDVR0TAQH/BAUwAwEB/zANBgkqhkiG9w0BAQsFAAOC\n\
AQEAriGtx0sjMX4h2KBF4FOQrFEaz3nx3vIAbyXJFudAkecd9l0D5AzrPpbwHDb/\n\
DqSK/n2aqfi2Ydrbu/AmjJAR7/YHoeW7f2Rirk0u/e0Ap/1NmtrmAjGgAdhHddnd\n\
QJfal3e0ECsvzF/s4qSK3X/omeg5PkqN077SAaHtAJIA3kQfbmCZG1sxViY1ja2B\n\
8eY+PVOhWAqxY49d5mCrCOv3XI78VGFG/w4szLX31URUZfb9tSS66iZjTrHaugyi\n\
A34pqw6pdiJMCJcuHGrJ0C52rC9ELzA4IGD/ew+pbr/9pOLru13Qt37RwLpQvOJM\n\
CdEe4n/Dx7q+jL7j5zWnn9u8hw==\n\
-----END CERTIFICATE-----\n\
";
const RSA4096_CRT: &str = "\
-----BEGIN CERTIFICATE-----\n\
MIIFDzCCAvegAwIBAgIUKElmHyLx+PYtmYRxDM4mMzUgIV4wDQYJKoZIhvcNAQEL\n\
BQAwFzEVMBMGA1UEAwwMcnNhNDA5Ni50ZXN0MB4XDTI2MTExODA2Mzg1N1oXDTM2\n\
MTExNTA2Mzg1N1owFzEVMBMGA1UEAwwMcnNhNDA5Ni50ZXN0MIICIjANBgkqhkiG\n\
9w0BAQEFAAOCAg8AMIICCgKCAgEA0iY1oj4J4+ySycYKBO8vIqzQ/xwOXZY5kXdO\n\
/J6NxU+/VqGGW5PxR8dtNSeV+JSKauFbg+8b/6DPtIgtI3M2jKEcf2Dn2BHZlFfz\n\
C+NB0ZYGU5MIBmFCM+FC3gOHSzJ3cWrLh14rX7x7Z7c+IJvZSqrV5yDoGqSDTLTa\n\
zFEiq0i1zjn3prIWhkdlr2Oe0o80QO4U60RKkfLKdQebQT3nX7udcv0uNfGSc2IV\n\
KZ7D6GwgDDev0w0/l9PadBXjmM6X8MdY5AkBBhYY8OCSiprylonY9rr19QBCnHk2\n\
O9s+IGbyBbS1dQPEpiaUvhMrqdHolQ5TC+wqtB2G3/pxYSm30fqS03dgFHmNO7XB\n\
KlAwm9A+gc+6faHthvm004tm3VaflrR01x0MX0OG4zxxUnfiKkD1zTYGwqcl+I5/\n\
8TPtU+Qm4yZNm2KYse2vXSsQtacxJ1nosUV2hFvmKb73pPU8Pvvc1YjniSnye41G\n\
9DTnQyUs0bTprFQqMe7Ue0dxsYCmMpOYGsG10AmdRCVmMim56uEk+f1sISitS05X\n\
ssXT5dB5bp9tSV/PwxR5EziJj7lh2x3BsqIu6FoLP7z5X0AnmMQiNMcRkK4lZoD/\n\
7Djjxm6Ey+aiGzXsCufj0QFqh+cOsdaolVSfmeXCV8SZvT88i6zE3MrBH4EKcVLT\n\
dxteEHkCAwEAAaNTMFEwHQYDVR0OBBYEFEw65HNrxoD3CjXZFt6kq8/yfhlmMB8G\n\
A1UdIwQYMBaAFEw65HNrxoD3CjXZFt6kq8/yfhlmMA8GA1UdEwEB/wQFMAMBAf8w\n\
DQYJKoZIhvcNAQELBQADggIBAL0C+OGxnn2WM+zYK41pXN0rergnxHJOQGLerJik\n\
kC2pwquS7dqsOzRuDl6NlL1jNH+zMLGaqKZgSyeuKpCw8EGTa02JX48G1Ab09yWT\n\
0WCJ9u8xidJPUriG/EflQr/jI50N66Dm57RE7YVXyVw8KQQZQZ/Eq1BunYo5yBa5\n\
7tzYYrh1GlJmKH6imfkt647ltZt31A/GmcXakGw5wv7Kr8y4LZ+aFUTIxy30B4sY\n\
GRdMsO64H+IyJ4JzIht9tAKwxVLPeDX1sQ6m9lpJXo9YoFP348Yv9Q5naWaA7rbv\n\
fxgHghQzBROcmdBGRn3m/A5lwN9hAzIee4OfAMf3/QkKGKJbElbROBZv/y7sLPte\n\
TMIEwzK1RHkdXc4qBUHkgPyRqrE4gQZbgi5ZpUCKDQSPitilUWzUtL/vACDR+pQu\n\
K6okmOc85xIkUELcADI/zc5ax+EOAFcD/CSC2p6MmcSn6e2xJIglg0lI3E2ndGsa\n\
JUmnQeucXiDERMfO9f2YNbZ1UUcxRksRUxYQEesKiLs6pGDCK0kgAF4gbw1XyAR/\n\
cOA77mlcqYfAPi5kyoZkycMft5aN/DAjs45MNs/7ONTVH0DxmOVYW+EGe7dugRfp\n\
+mQEkGiSTY6vduHeKU9FZvItZxlMeQuNxdUi8crlrvUPxw4/M5qPgYBsjnYrqeTh\n\
uK0k\n\
-----END CERTIFICATE-----\n\
";
const EC_P256_CRT: &str = "\
-----BEGIN CERTIFICATE-----\n\
MIIBfDCCASOgAwIBAgIUZC4t5sZ3sQiDxs2dF9VueV+8s3YwCgYIKoZIzj0EAwIw\n\
FDESMBAGA1UEAwwJcDI1Ni50ZXN0MB4XDTI2MTExODA2Mzg1N1oXDTM2MTExNTA2\n\
Mzg1N1owFDESMBAGA1UEAwwJcDI1Ni50ZXN0MFkwEwYHKoZIzj0CAQYIKoZIzj0D\n\
AQcDQgAEeFOlIHO0M48QRI8qXy8gOdYjRnuW8CUSc45iYmXHZytXzh/AezK3Ot6K\n\
/hiNLH/Wj6BZOGuTtkNdi85B6HSUwaNTMFEwHQYDVR0OBBYEFFv2SgYBvlZjMxAY\n\
xb19cjAkrgz0MB8GA1UdIwQYMBaAFFv2SgYBvlZjMxAYxb19cjAkrgz0MA8GA1Ud\n\
EwEB/wQFMAMBAf8wCgYIKoZIzj0EAwIDRwAwRAIgP8i5Ts29MZ/KnmR5wbw/wDAK\n\
fQJe6PnHfdLPTqeyQhsCICh1lAiFp7/vOe90cGTNiT3ZZp/d/cNjRBi/x/T3UFRw\n\
-----END CERTIFICATE-----\n\
";
const EC_P384_CRT: &str = "\
-----BEGIN CERTIFICATE-----\n\
MIIBuzCCAUCgAwIBAgIUaBpprpreMAyVqQBdszbc7Z9WU0UwCgYIKoZIzj0EAwIw\n\
FDESMBAGA1UEAwwJcDM4NC50ZXN0MB4XDTI2MTExODA2Mzg1N1oXDTM2MTExNTA2\n\
Mzg1N1owFDESMBAGA1UEAwwJcDM4NC50ZXN0MHYwEAYHKoZIzj0CAQYFK4EEACID\n\
YgAEZlV8TO0kz0JBmVe8ciKB46uhKAFsKGIoNO2DAP7OkemAbO0OulBUH+vwtoU2\n\
1H7qIfHUgemrruPzFwd/hRutbooaAKJ8uJK4H339etWKvrpZv12cCmklAEfIDXLc\n\
gfn/o1MwUTAdBgNVHQ4EFgQUJ2rv3fN1/CW1Aw+uXXprteXnv4MwHwYDVR0jBBgw\n\
FoAUJ2rv3fN1/CW1Aw+uXXprteXnv4MwDwYDVR0TAQH/BAUwAwEB/zAKBggqhkjO\n\
PQQDAgNpADBmAjEAwtbITTbnDwH8dmRY4icsMbVBS3O5xi3ekBw3QkWEKJFhMzBt\n\
tLPSgbOVnmJVgVeaAjEAi6CcnXTJqnvikWT78XoLX0oAaeWEncIqTi9JTWWgi+3D\n\
5payFQ2uOMO6O1awpLtA\n\
-----END CERTIFICATE-----\n\
";
const ED25519_CRT: &str = "\
-----BEGIN CERTIFICATE-----\n\
MIIBODCB66ADAgECAhQto4iv9ZOcPqA4dG3bZUrjodC8nzAFBgMrZXAwEjEQMA4G\n\
A1UEAwwHZWQudGVzdDAeFw0yNjExMTgwNjM4NTdaFw0zNjExMTUwNjM4NTdaMBIx\n\
EDAOBgNVBAMMB2VkLnRlc3QwKjAFBgMrZXADIQCM66wTp5k4IhqxIVu81DNLtt9B\n\
7BD1irn+aCt1008ssKNTMFEwHQYDVR0OBBYEFPKm8SJStNUH+isgbsxLA8t83C1n\n\
MB8GA1UdIwQYMBaAFPKm8SJStNUH+isgbsxLA8t83C1nMA8GA1UdEwEB/wQFMAMB\n\
Af8wBQYDK2VwA0EAu0Yfihx9c/p7wqkcsx2IgrIusdP5anioVJMqUG89L5Pq2ZFU\n\
WlHuy3djdWmUjAHko8IW1oO2UlpA3g3YCzC3Aw==\n\
-----END CERTIFICATE-----\n\
";
const RSA2048_PUB: &str = "\
-----BEGIN PUBLIC KEY-----\n\
MIIBIjANBgkqhkiG9w0BAQEFAAOCAQ8AMIIBCgKCAQEAuBJUQSUWq0oNHAKpVD5e\n\
J2Oyb8dX16u/bBKqImk9ctYh7TB3q1M6jVi+yUAIsuO2hhgt/es9qzkoIlWY+Xvq\n\
ILm21NzuSaIhcIZK/uGxbYltJrXISX8/zFA4bYYM438wl2IKN62AEUb2Xf2a15Cc\n\
sJUqQm6maWMJ1VqwCdpjKgbVEogAPuHNobPIW+3uB4OTiMIs4oixbAGj5qD5+r4b\n\
N3mHo0lHbAWtBqaZX+PgHTX4UiFKKkyOTQ6H+V9MHDaoWE1B4VMDYvnY9HDEEvkb\n\
IgGE4GkUoOc7tvFwCFDA2ZMibePfIUs9ZFE+/Jjdf0KkU12K3l1zCiRsko8ZjTdC\n\
hQIDAQAB\n\
-----END PUBLIC KEY-----\n\
";

use base64::Engine;

use acdi::cbom::{build_bom, Bom, Component};
use acdi::cli::FailOn;
use acdi::ignore::IgnoreList;
use acdi::scan::{finalize_assets, threshold_exceeded};
use acdi::certs::detect_in_bytes_pem_der;
use acdi::detect::detect_in_file;
use acdi::diff::{diff_components, RawComponent};
use acdi::diff_render::{diff_output, diff_text, Segment};
use acdi::model::{AssetType, CryptoAsset, Evidence, QuantumSafety, Risk};

/// One DER element: tag, definite length, content.
fn der(tag: u8, content: &[u8]) -> Vec<u8> {
    let mut out = vec![tag];
    let n = content.len();
    if n < 0x80 {
        out.push(n as u8);
    } else if n < 0x100 {
        out.push(0x81);
        out.push(n as u8);
    } else {
        out.push(0x82);
        out.push((n >> 8) as u8);
        out.push(n as u8);
    }
    out.extend_from_slice(content);
    out
}

fn der_seq(parts: &[Vec<u8>]) -> Vec<u8> {
    der(0x30, &parts.concat())
}

/// A PEM block with the given label around `body`, base64 in 64-column lines.
fn pem_block(label: &str, body: &[u8]) -> String {
    let b64 = base64::engine::general_purpose::STANDARD.encode(body);
    let lines: Vec<&str> = b64
        .as_bytes()
        .chunks(64)
        .map(|c| std::str::from_utf8(c).expect("base64 is ascii"))
        .collect();
    format!("-----BEGIN {label}-----\n{}\n-----END {label}-----\n", lines.join("\n"))
}

fn private_label(prefix: &str) -> String {
    format!("{prefix}{}", ["PRIVATE", "KEY"].join(" "))
}

/// An unencrypted PKCS#8 RSA key whose modulus has 2048 bits.
fn rsa2048_key() -> String {
    let mut modulus = vec![0x00u8, 0xc3];
    modulus.extend((1..256u32).map(|i| (i * 37 % 251) as u8 | 1));
    let rsa_private = der_seq(&[
        der(0x02, &[0x00]),
        der(0x02, &modulus),
        der(0x02, &[0x01, 0x00, 0x01]),
        der(0x02, &[0x35]),
        der(0x02, &[0x0b]),
        der(0x02, &[0x05]),
    ]);
    let algorithm = der_seq(&[
        der(0x06, &[0x2a, 0x86, 0x48, 0x86, 0xf7, 0x0d, 0x01, 0x01, 0x01]),
        der(0x05, &[]),
    ]);
    let info = der_seq(&[der(0x02, &[0x00]), algorithm, der(0x04, &rsa_private)]);
    pem_block(&private_label(""), &info)
}

/// A SEC1 EC key on the named curve P-256.
fn ec_p256_key() -> String {
    let scalar: Vec<u8> = (0..32u8).map(|i| i.wrapping_mul(7).wrapping_add(3)).collect();
    let params = der(0xa0, &der(0x06, &[0x2a, 0x86, 0x48, 0xce, 0x3d, 0x03, 0x01, 0x07]));
    let key = der_seq(&[der(0x02, &[0x01]), der(0x04, &scalar), params]);
    pem_block(&private_label("EC "), &key)
}

fn detect(path: &str, text: &str) -> Vec<CryptoAsset> {
    let bytes = text.as_bytes();
    detect_in_file(path, bytes.len() as u64, bytes).expect("detect should succeed")
}

fn fixture(name: &str) -> String {
    format!("tests/fixtures/{name}")
}

fn raw(c: &Component) -> RawComponent {
    RawComponent {
        name: Some(c.name.clone()),
        asset_type: Some(c.crypto_properties.asset_type.clone()),
        properties: Some(
            c.properties.iter().map(|p| (Some(p.name.clone()), Some(p.value.clone()))).collect(),
        ),
    }
}

fn raws(b: &Bom) -> Option<Vec<RawComponent>> {
    Some(b.components.iter().map(raw).collect())
}

fn line_text(l: &[Segment]) -> String {
    l.iter().map(|s| s.text.as_str()).collect()
}

fn diff_stdout(before: &Option<Vec<RawComponent>>, after: &Option<Vec<RawComponent>>) -> String {
    let report = diff_components(before, after);
    diff_text("before.json", "after.json", &report)
        .iter()
        .map(|l| line_text(l))
        .collect::<Vec<_>>()
        .join("\n")
}

// ── Certificate detection ─────────────────────────────────────────────────────

#[test]
fn detects_rsa2048_cert_as_vulnerable() {
    let assets = detect(&fixture("pems/rsa2048.crt.pem"), RSA2048_CRT);
    assert!(!assets.is_empty(), "should find at least one asset");
    let asset = &assets[0];
    assert_eq!(asset.quantum_safe, QuantumSafety::Vulnerable, "RSA-2048 must be VULNERABLE");
    assert!(asset.hndl_risk >= Risk::High, "RSA-2048 HNDL risk must be HIGH or CRITICAL");
}

#[test]
fn detects_ec_p256_cert_as_vulnerable() {
    let assets = detect(&fixture("pems/ec_p256.crt.pem"), EC_P256_CRT);
    assert!(!assets.is_empty(), "should find at least one asset");
    let asset = &assets[0];
    assert_eq!(asset.quantum_safe, QuantumSafety::Vulnerable, "ECDSA P-256 must be VULNERABLE");
    assert!(asset.hndl_risk >= Risk::High, "ECDSA P-256 HNDL risk must be HIGH or CRITICAL");
}

#[test]
fn detects_ec_p384_cert_as_vulnerable() {
    let assets = detect(&fixture("pems/ec_p384.crt.pem"), EC_P384_CRT);
    assert!(!assets.is_empty(), "should find at least one asset");
    assert_eq!(assets[0].quantum_safe, QuantumSafety::Vulnerable, "ECDSA P-384 must be VULNERABLE");
}

#[test]
fn detects_rsa4096_cert() {
    let assets = detect(&fixture("pems/rsa4096.crt.pem"), RSA4096_CRT);
    assert!(!assets.is_empty(), "should find at least one asset");
    assert_eq!(assets[0].quantum_safe, QuantumSafety::Vulnerable);
}

#[test]
fn returns_empty_for_non_crypto_file() {
    let assets = detect(&fixture("configs/not_crypto.txt"), "Hello, world!\n");
    assert!(assets.is_empty(), "plain text file should yield no assets");
}

#[test]
fn detects_rsa_private_key() {
    let assets = detect(&fixture("keys/rsa2048.key.pem"), &rsa2048_key());
    assert!(!assets.is_empty(), "should detect RSA private key");
    assert_eq!(assets[0].quantum_safe, QuantumSafety::Vulnerable);
    assert!(assets[0].hndl_risk >= Risk::High);
}

#[test]
fn detects_ec_private_key() {
    let assets = detect(&fixture("keys/ec_p256.key.pem"), &ec_p256_key());
    assert!(!assets.is_empty(), "should detect EC private key");
    assert_eq!(assets[0].quantum_safe, QuantumSafety::Vulnerable);
}

#[test]
fn private_keys_carry_their_parameters() {
    let rsa = detect(&fixture("keys/rsa2048.key.pem"), &rsa2048_key());
    assert_eq!(rsa.len(), 1);
    assert_eq!(rsa[0].name, "RSA-2048");
    assert_eq!(rsa[0].asset_type, AssetType::PrivateKey);
    let ec = detect(&fixture("keys/ec_p256.key.pem"), &ec_p256_key());
    assert_eq!(ec.len(), 1);
    assert_eq!(ec[0].name, "ECDSA-P-256");
    assert_eq!(ec[0].parameter_set.as_deref(), Some("P-256"));
}

#[test]
fn public_key_pem_is_reported() {
    // A SubjectPublicKeyInfo block names no algorithm in its label.
    let assets = detect(&fixture("keys/rsa2048.pub.pem"), RSA2048_PUB);
    assert_eq!(assets.len(), 1);
    assert_eq!(assets[0].asset_type, AssetType::PublicKey);
    assert_eq!(assets[0].name, "Unknown");
    let rsa_labelled = RSA2048_PUB.replace("PUBLIC KEY", "RSA PUBLIC KEY");
    let assets = detect(&fixture("keys/rsa.pub.pem"), &rsa_labelled);
    assert_eq!(assets[0].name, "RSA");
    assert_eq!(assets[0].quantum_safe, QuantumSafety::Vulnerable);
}

#[test]
fn ed25519_cert_is_classical() {
    let assets = detect(&fixture("pems/ed25519.crt.pem"), ED25519_CRT);
    assert_eq!(assets.len(), 1);
    assert!(assets[0].name.starts_with("Ed25519"), "got {}", assets[0].name);
    assert_eq!(assets[0].oid.as_deref(), Some("1.3.101.112"));
}

#[test]
fn pem_file_with_several_blocks_reports_each() {
    let both = format!("{RSA2048_CRT}{EC_P256_CRT}");
    let assets = detect(&fixture("pems/chain.pem"), &both);
    let names: Vec<&str> = assets.iter().map(|a| a.name.as_str()).collect();
    assert_eq!(names, vec!["RSA-2048", "ECDSA-P-256"]);
}

#[test]
fn pem_header_without_pem_extension_is_parsed() {
    let assets = detect(&fixture("pems/server_cert"), RSA2048_CRT);
    assert_eq!(assets.len(), 1);
    assert_eq!(assets[0].name, "RSA-2048");
}

#[test]
fn malformed_pem_yields_nothing() {
    let bad = "-----BEGIN CERTIFICATE-----\nthis is not valid base64!!!\n-----END CERTIFICATE-----\n";
    let assets = detect(&fixture("bad.pem"), bad);
    assert!(assets.is_empty(), "malformed PEM must yield no assets");
}

// ── Classification correctness ────────────────────────────────────────────────

#[test]
fn rsa2048_cert_has_correct_name_and_risk() {
    let assets = detect(&fixture("pems/rsa2048.crt.pem"), RSA2048_CRT);
    let asset = &assets[0];
    assert_eq!(asset.name, "RSA-2048", "cert name must include key size");
    assert_eq!(asset.hndl_risk, Risk::Critical);
    assert_eq!(asset.nist_quantum_security, 0);
}

#[test]
fn rsa4096_cert_has_high_not_critical_risk() {
    let assets = detect(&fixture("pems/rsa4096.crt.pem"), RSA4096_CRT);
    let asset = &assets[0];
    assert_eq!(asset.name, "RSA-4096", "cert name must include key size");
    assert_eq!(asset.hndl_risk, Risk::High);
}

#[test]
fn ec_p256_cert_has_correct_name_and_curve() {
    let assets = detect(&fixture("pems/ec_p256.crt.pem"), EC_P256_CRT);
    let asset = &assets[0];
    assert_eq!(asset.name, "ECDSA-P-256", "EC cert must include named curve");
    assert_eq!(asset.parameter_set.as_deref(), Some("P-256"));
    assert_eq!(asset.quantum_safe, QuantumSafety::Vulnerable);
    assert_eq!(asset.hndl_risk, Risk::Critical);
}

#[test]
fn ec_p384_cert_has_correct_name_and_curve() {
    let assets = detect(&fixture("pems/ec_p384.crt.pem"), EC_P384_CRT);
    let asset = &assets[0];
    assert_eq!(asset.name, "ECDSA-P-384", "EC cert must include named curve");
    assert_eq!(asset.parameter_set.as_deref(), Some("P-384"));
}

#[test]
fn cert_assets_use_certificate_parsing_evidence() {
    let assets = detect(&fixture("pems/rsa2048.crt.pem"), RSA2048_CRT);
    assert_eq!(assets[0].asset_type, AssetType::Certificate);
    assert_eq!(assets[0].evidence, Evidence::CertificateParsing);
    assert_eq!(assets[0].oid.as_deref(), Some("1.2.840.113549.1.1.1"));
    assert_eq!(assets[0].locations[0].source, fixture("pems/rsa2048.crt.pem"));
    assert_eq!(assets[0].locations[0].line, None);
}

// ── detect_in_bytes_pem_der ───────────────────────────────────────────────────

fn der_of(pem: &str) -> Vec<u8> {
    let b64: String = pem.lines().filter(|l| !l.starts_with("-----")).collect();
    base64::engine::general_purpose::STANDARD.decode(b64.trim()).unwrap()
}

#[test]
fn detect_in_bytes_pem_der_handles_der_cert() {
    let der = der_of(RSA2048_CRT);
    let assets = detect_in_bytes_pem_der(&der, "test:443", "certificate");
    assert!(!assets.is_empty(), "should find an asset in DER bytes");
    assert_eq!(assets[0].name, "RSA-2048");
    assert_eq!(assets[0].locations[0].source, "test:443");
}

#[test]
fn detect_in_bytes_pem_der_handles_pem_bytes() {
    let assets = detect_in_bytes_pem_der(EC_P256_CRT.as_bytes(), "endpoint:443", "certificate");
    assert!(!assets.is_empty(), "should find an asset in PEM bytes");
    assert_eq!(assets[0].name, "ECDSA-P-256");
    assert_eq!(assets[0].locations[0].source, "endpoint:443");
}

#[test]
fn der_file_by_extension_is_parsed() {
    let der = der_of(EC_P384_CRT);
    let assets = detect_in_file(&fixture("pems/ec_p384.der"), der.len() as u64, &der).unwrap();
    assert_eq!(assets.len(), 1);
    assert_eq!(assets[0].name, "ECDSA-P-384");
}

#[test]
fn der_bytes_with_other_hint_are_not_parsed() {
    let der = der_of(RSA2048_CRT);
    assert!(detect_in_bytes_pem_der(&der, "x:1", "key").is_empty());
    assert_eq!(detect_in_bytes_pem_der(&der, "x:1", "").len(), 1);
}

// ── CBOM output ───────────────────────────────────────────────────────────────

#[test]
fn cbom_output_is_valid_json_with_correct_spec_version() {
    let assets = detect(&fixture("pems/rsa2048.crt.pem"), RSA2048_CRT);
    let bom = build_bom(&assets);
    assert_eq!(bom.spec_version, "1.7", "specVersion must be 1.7");
    assert_eq!(bom.bom_format, "CycloneDX");
    assert_eq!(bom.components.len(), assets.len());
    assert!(bom.serial_number.starts_with("urn:uuid:"));
}

#[test]
fn cbom_components_have_crypto_properties() {
    let assets = detect(&fixture("pems/rsa2048.crt.pem"), RSA2048_CRT);
    let bom = build_bom(&assets);
    assert!(!bom.components.is_empty());
    for comp in &bom.components {
        assert!(!comp.crypto_properties.asset_type.is_empty(), "cryptoProperties.assetType must be a string");
    }
    assert_eq!(bom.components[0].crypto_properties.asset_type, "certificate");
}

#[test]
fn cbom_components_have_acdi_properties() {
    let assets = detect(&fixture("pems/rsa2048.crt.pem"), RSA2048_CRT);
    let bom = build_bom(&assets);
    let props = &bom.components[0].properties;
    let names: Vec<&str> = props.iter().map(|p| p.name.as_str()).collect();
    assert!(names.contains(&"acdi:quantum_safe"), "must have acdi:quantum_safe");
    assert!(names.contains(&"acdi:hndl_risk"), "must have acdi:hndl_risk");
    assert!(names.contains(&"acdi:nist_level"), "must have acdi:nist_level");
    let qs_val = props.iter().find(|p| p.name == "acdi:quantum_safe").map(|p| p.value.as_str()).unwrap();
    assert_eq!(qs_val, "VULNERABLE", "RSA-2048 must be VULNERABLE in properties");
}

#[test]
fn cbom_bom_refs_are_distinct() {
    let assets = detect(&fixture("pems/chain.pem"), &format!("{RSA2048_CRT}{EC_P256_CRT}"));
    let bom = build_bom(&assets);
    assert_eq!(bom.components.len(), 2);
    assert_ne!(bom.components[0].bom_ref, bom.components[1].bom_ref);
}

// ── CBOM diff ─────────────────────────────────────────────────────────────────

#[test]
fn diff_identical_cboms_shows_no_changes() {
    let assets = detect(&fixture("pems/rsa2048.crt.pem"), RSA2048_CRT);
    let bom = build_bom(&assets);
    let stdout = diff_stdout(&raws(&bom), &raws(&bom));
    assert!(stdout.contains("0 added"));
    assert!(stdout.contains("0 removed"));
}

#[test]
fn diff_reports_added_and_removed_assets() {
    let a = build_bom(&detect(&fixture("pems/rsa2048.crt.pem"), RSA2048_CRT));
    let b = build_bom(&detect(&fixture("pems/ec_p256.crt.pem"), EC_P256_CRT));
    let stdout = diff_stdout(&raws(&a), &raws(&b));
    assert!(stdout.contains("1 added"), "expected 1 added, got: {stdout}");
    assert!(stdout.contains("1 removed"), "expected 1 removed, got: {stdout}");
}

#[test]
fn diff_detects_changed_quantum_safety() {
    let bom = build_bom(&detect(&fixture("pems/rsa2048.crt.pem"), RSA2048_CRT));
    let before = raws(&bom);
    let mut patched = raws(&bom);
    for c in patched.as_mut().unwrap().iter_mut() {
        for p in c.properties.as_mut().unwrap().iter_mut() {
            if p.1.as_deref() == Some("VULNERABLE") {
                p.1 = Some("SAFE".to_string());
            }
        }
    }
    let stdout = diff_stdout(&before, &patched);
    assert!(stdout.contains("1 changed"), "patched quantum_safe must show as changed: {stdout}");
    assert!(stdout.contains("0 added"), "no new assets: {stdout}");
    assert!(stdout.contains("0 removed"), "no removed assets: {stdout}");
}

#[test]
fn diff_output_summary_counts() {
    let a = build_bom(&detect(&fixture("pems/rsa2048.crt.pem"), RSA2048_CRT));
    let b = build_bom(&detect(&fixture("pems/chain.pem"), &format!("{RSA2048_CRT}{EC_P256_CRT}")));
    let report = diff_components(&raws(&a), &raws(&b));
    let out = diff_output("a.json", "b.json", &report);
    assert_eq!(out.summary.added, 1);
    assert_eq!(out.summary.removed, 0);
    assert_eq!(out.summary.changed, 0);
    assert_eq!(out.summary.unchanged, 1);
    assert_eq!(out.summary.vulnerable_before, 1);
    assert_eq!(out.summary.vulnerable_after, 2);
    assert_eq!(out.added[0].name, "ECDSA-P-256");
    assert_eq!(out.before, "a.json");
}

// ── Scanning the certificate fixtures as a directory ─────────────────────────


const PEMS_ACDIGNORE: &str = "# RSA-4096 is approved for our HSMs\nalgorithm:RSA-4096\n";

fn pems_dir() -> Vec<Vec<CryptoAsset>> {
    vec![
        detect(&fixture("pems/ec_p256.crt.pem"), EC_P256_CRT),
        detect(&fixture("pems/ec_p384.crt.pem"), EC_P384_CRT),
        detect(&fixture("pems/rsa2048.crt.pem"), RSA2048_CRT),
        detect(&fixture("pems/rsa4096.crt.pem"), RSA4096_CRT),
    ]
}

fn component_names(assets: &Vec<CryptoAsset>) -> Vec<String> {
    build_bom(assets).components.iter().map(|c| c.name.clone()).collect()
}

#[test]
fn cli_acdignore_suppresses_rsa4096_from_pems() {
    let assets = finalize_assets(&pems_dir(), &IgnoreList::parse(PEMS_ACDIGNORE));
    let names = component_names(&assets);
    assert!(!names.contains(&"RSA-4096".to_string()), ".acdignore must suppress RSA-4096, got: {names:?}");
    assert!(names.contains(&"RSA-2048".to_string()), "RSA-2048 must still appear, got: {names:?}");
}

#[test]
fn cli_no_ignore_flag_bypasses_acdignore() {
    let assets = finalize_assets(&pems_dir(), &IgnoreList::empty());
    let names = component_names(&assets);
    assert!(names.contains(&"RSA-4096".to_string()), "--no-ignore must restore RSA-4096, got: {names:?}");
    assert_eq!(names, vec!["ECDSA-P-256", "RSA-2048", "ECDSA-P-384", "RSA-4096"]);
}

#[test]
fn fail_on_critical_exits_1_when_critical_assets_present() {
    let assets = finalize_assets(&pems_dir(), &IgnoreList::parse(PEMS_ACDIGNORE));
    assert!(threshold_exceeded(&assets, &FailOn::Critical), "critical assets present");
}

#[test]
fn fail_on_high_exits_1_when_high_or_worse_present() {
    let assets = finalize_assets(&pems_dir(), &IgnoreList::parse(PEMS_ACDIGNORE));
    assert!(threshold_exceeded(&assets, &FailOn::High), "high+ assets present");
}

#[test]
fn scan_output_flag_writes_valid_cbom_file() {
    let assets = finalize_assets(&pems_dir(), &IgnoreList::parse(PEMS_ACDIGNORE));
    let bom = build_bom(&assets);
    assert_eq!(bom.spec_version, "1.7");
    assert!(!bom.components.is_empty());
}

#[test]
fn scan_single_file_finds_one_asset() {
    let one = vec![detect(&fixture("pems/rsa2048.crt.pem"), RSA2048_CRT)];
    let assets = finalize_assets(&one, &IgnoreList::empty());
    assert_eq!(build_bom(&assets).components.len(), 1);
}

#[test]
fn scan_malformed_pem_does_not_panic() {
    let bad = "-----BEGIN CERTIFICATE-----\nthis is not valid base64!!!\n-----END CERTIFICATE-----\n";
    let per_file = vec![detect(&fixture("bad/bad.pem"), bad)];
    let assets = finalize_assets(&per_file, &IgnoreList::empty());
    assert_eq!(build_bom(&assets).components.len(), 0, "malformed PEM must yield zero components");
}

#[test]
fn scan_empty_directory_exits_ok() {
    let assets = finalize_assets(&Vec::new(), &IgnoreList::empty());
    assert!(assets.is_empty());
    assert!(!threshold_exceeded(&assets, &FailOn::Low));
}
