# sign_keypair

Hardware-backed ECDSA P-256 (ES256) signing for device-bound authentication in
Tauri v2 apps, as a verified library and the plugin around it.

- `src/` is the library, verified with Verus: the wire vocabulary and its
  round-trip laws (`models`, `error`), the ASN.1 DER → IEEE P1363 signature
  conversion with its grammar and round-trip laws (`asn1`), unpadded base64url
  (`b64`), compact JWS assembly (`jws`), the IPC argument rules (`commands`),
  the P-256 / SHA-256 primitives (`crypto`), and every decision the desktop and
  mobile backends make around the platform calls (`desktop`, `mobile`).
- `app/` is the Tauri plugin: registration, the async IPC commands, the serde
  forms of the wire types, the key files of the software fallback, and the
  Security-framework, NCrypt, TSS and mobile-bridge calls.
- `tests/` runs the library: the DER known-answer vectors, the wire contract,
  and the software signer end to end with `p256`'s verifier.
