//! Value objects of the stored configuration: small enums with their text
//! forms (as shown and stored) and their case-insensitive parsers.

use vstd::prelude::*;

use crate::text::{str_eq, to_lowercase, to_uppercase, lowercase_of, uppercase_of};

verus! {

/// Downloader kind.
#[derive(Debug, Clone, Copy, PartialEq, Eq, Hash, Structural)]
pub enum DownloaderType {
    /// N_m3u8DL-RE: streaming downloads.
    M3U8DL,
    /// FFmpeg: direct downloads.
    FFmpeg,
}

/// The text form of a `DownloaderType`.
pub open spec fn downloader_type_text(v: DownloaderType) -> Seq<char> {
    match v {
        DownloaderType::M3U8DL => "m3u8dl"@,
        DownloaderType::FFmpeg => "ffmpeg"@,
    }
}

/// The `DownloaderType` named by `s` (after lowercasing), if any.
pub open spec fn downloader_type_from(s: Seq<char>) -> Option<DownloaderType> {
    let k = lowercase_of(s);
    if k == "m3u8dl"@ {
        Some(DownloaderType::M3U8DL)
    } else if k == "m3u8"@ {
        Some(DownloaderType::M3U8DL)
    } else if k == "ffmpeg"@ {
        Some(DownloaderType::FFmpeg)
    } else {
        None
    }
}

impl DownloaderType {
    /// The text form.
    pub fn as_str(self) -> (r: &'static str)
        ensures
            r@ == downloader_type_text(self),
    {
        match self {
            DownloaderType::M3U8DL => "m3u8dl",
            DownloaderType::FFmpeg => "ffmpeg",
        }
    }

    /// Parses the text form; anything else is an error naming the input.
    pub fn parse(s: &str) -> (r: Result<DownloaderType, String>)
        ensures
            downloader_type_from(s@) matches Some(v) ==> r == Ok::<DownloaderType, String>(v),
            downloader_type_from(s@) is None ==> (r matches Err(m) && m@ == "Unknown downloader type: "@ + s@),
    {
        let k = to_lowercase(s);
        let k = k.as_str();
        if str_eq(k, "m3u8dl") {
            Ok(DownloaderType::M3U8DL)
        } else if str_eq(k, "m3u8") {
            Ok(DownloaderType::M3U8DL)
        } else if str_eq(k, "ffmpeg") {
            Ok(DownloaderType::FFmpeg)
        } else {
            Err(String::from_str("Unknown downloader type: ").concat(s))
        }
    }
}

impl Default for DownloaderType {
    fn default() -> (r: Self)
        ensures
            r == DownloaderType::M3U8DL,
    {
        DownloaderType::M3U8DL
    }
}

impl std::str::FromStr for DownloaderType {
    type Err = String;

    fn from_str(s: &str) -> (r: Result<DownloaderType, String>)
        ensures
            downloader_type_from(s@) matches Some(v) ==> r == Ok::<DownloaderType, String>(v),
            downloader_type_from(s@) is None ==> (r matches Err(m) && m@ == "Unknown downloader type: "@ + s@),
    {
        DownloaderType::parse(s)
    }
}

/// Decryption engine.
#[derive(Debug, Clone, Copy, PartialEq, Eq, Hash, Structural)]
pub enum DecryptionEngine {
    FFmpeg,
    MP4Decrypt,
    ShakaPackager,
}

/// The text form of a `DecryptionEngine`.
pub open spec fn decryption_engine_text(v: DecryptionEngine) -> Seq<char> {
    match v {
        DecryptionEngine::FFmpeg => "FFMPEG"@,
        DecryptionEngine::MP4Decrypt => "MP4DECRYPT"@,
        DecryptionEngine::ShakaPackager => "SHAKA_PACKAGER"@,
    }
}

/// The `DecryptionEngine` named by `s` (after uppercasing), if any.
pub open spec fn decryption_engine_from(s: Seq<char>) -> Option<DecryptionEngine> {
    let k = uppercase_of(s);
    if k == "FFMPEG"@ {
        Some(DecryptionEngine::FFmpeg)
    } else if k == "MP4DECRYPT"@ {
        Some(DecryptionEngine::MP4Decrypt)
    } else if k == "SHAKA_PACKAGER"@ {
        Some(DecryptionEngine::ShakaPackager)
    } else if k == "SHAKA"@ {
        Some(DecryptionEngine::ShakaPackager)
    } else {
        None
    }
}

impl DecryptionEngine {
    /// The text form.
    pub fn as_str(self) -> (r: &'static str)
        ensures
            r@ == decryption_engine_text(self),
    {
        match self {
            DecryptionEngine::FFmpeg => "FFMPEG",
            DecryptionEngine::MP4Decrypt => "MP4DECRYPT",
            DecryptionEngine::ShakaPackager => "SHAKA_PACKAGER",
        }
    }

    /// Parses the text form; anything else is an error naming the input.
    pub fn parse(s: &str) -> (r: Result<DecryptionEngine, String>)
        ensures
            decryption_engine_from(s@) matches Some(v) ==> r == Ok::<DecryptionEngine, String>(v),
            decryption_engine_from(s@) is None ==> (r matches Err(m) && m@ == "Unknown decryption engine: "@ + s@),
    {
        let k = to_uppercase(s);
        let k = k.as_str();
        if str_eq(k, "FFMPEG") {
            Ok(DecryptionEngine::FFmpeg)
        } else if str_eq(k, "MP4DECRYPT") {
            Ok(DecryptionEngine::MP4Decrypt)
        } else if str_eq(k, "SHAKA_PACKAGER") {
            Ok(DecryptionEngine::ShakaPackager)
        } else if str_eq(k, "SHAKA") {
            Ok(DecryptionEngine::ShakaPackager)
        } else {
            Err(String::from_str("Unknown decryption engine: ").concat(s))
        }
    }
}

impl Default for DecryptionEngine {
    fn default() -> (r: Self)
        ensures
            r == DecryptionEngine::MP4Decrypt,
    {
        DecryptionEngine::MP4Decrypt
    }
}

impl std::str::FromStr for DecryptionEngine {
    type Err = String;

    fn from_str(s: &str) -> (r: Result<DecryptionEngine, String>)
        ensures
            decryption_engine_from(s@) matches Some(v) ==> r == Ok::<DecryptionEngine, String>(v),
            decryption_engine_from(s@) is None ==> (r matches Err(m) && m@ == "Unknown decryption engine: "@ + s@),
    {
        DecryptionEngine::parse(s)
    }
}

/// Container format of the muxed output.
#[derive(Debug, Clone, Copy, PartialEq, Eq, Hash, Structural)]
pub enum MuxFormat {
    MP4,
    MKV,
}

/// The text form of a `MuxFormat`.
pub open spec fn mux_format_text(v: MuxFormat) -> Seq<char> {
    match v {
        MuxFormat::MP4 => "mp4"@,
        MuxFormat::MKV => "mkv"@,
    }
}

/// The `MuxFormat` named by `s` (after lowercasing), if any.
pub open spec fn mux_format_from(s: Seq<char>) -> Option<MuxFormat> {
    let k = lowercase_of(s);
    if k == "mp4"@ {
        Some(MuxFormat::MP4)
    } else if k == "mkv"@ {
        Some(MuxFormat::MKV)
    } else {
        None
    }
}

impl MuxFormat {
    /// The text form.
    pub fn as_str(self) -> (r: &'static str)
        ensures
            r@ == mux_format_text(self),
    {
        match self {
            MuxFormat::MP4 => "mp4",
            MuxFormat::MKV => "mkv",
        }
    }

    /// Parses the text form; anything else is an error naming the input.
    pub fn parse(s: &str) -> (r: Result<MuxFormat, String>)
        ensures
            mux_format_from(s@) matches Some(v) ==> r == Ok::<MuxFormat, String>(v),
            mux_format_from(s@) is None ==> (r matches Err(m) && m@ == "Unknown mux format: "@ + s@),
    {
        let k = to_lowercase(s);
        let k = k.as_str();
        if str_eq(k, "mp4") {
            Ok(MuxFormat::MP4)
        } else if str_eq(k, "mkv") {
            Ok(MuxFormat::MKV)
        } else {
            Err(String::from_str("Unknown mux format: ").concat(s))
        }
    }
}

impl Default for MuxFormat {
    fn default() -> (r: Self)
        ensures
            r == MuxFormat::MP4,
    {
        MuxFormat::MP4
    }
}

impl std::str::FromStr for MuxFormat {
    type Err = String;

    fn from_str(s: &str) -> (r: Result<MuxFormat, String>)
        ensures
            mux_format_from(s@) matches Some(v) ==> r == Ok::<MuxFormat, String>(v),
            mux_format_from(s@) is None ==> (r matches Err(m) && m@ == "Unknown mux format: "@ + s@),
    {
        MuxFormat::parse(s)
    }
}

/// Muxer program.
#[derive(Debug, Clone, Copy, PartialEq, Eq, Hash, Structural)]
pub enum Muxer {
    FFmpeg,
    MKVMerge,
}

/// The text form of a `Muxer`.
pub open spec fn muxer_text(v: Muxer) -> Seq<char> {
    match v {
        Muxer::FFmpeg => "ffmpeg"@,
        Muxer::MKVMerge => "mkvmerge"@,
    }
}

/// The `Muxer` named by `s` (after lowercasing), if any.
pub open spec fn muxer_from(s: Seq<char>) -> Option<Muxer> {
    let k = lowercase_of(s);
    if k == "ffmpeg"@ {
        Some(Muxer::FFmpeg)
    } else if k == "mkvmerge"@ {
        Some(Muxer::MKVMerge)
    } else {
        None
    }
}

impl Muxer {
    /// The text form.
    pub fn as_str(self) -> (r: &'static str)
        ensures
            r@ == muxer_text(self),
    {
        match self {
            Muxer::FFmpeg => "ffmpeg",
            Muxer::MKVMerge => "mkvmerge",
        }
    }

    /// Parses the text form; anything else is an error naming the input.
    pub fn parse(s: &str) -> (r: Result<Muxer, String>)
        ensures
            muxer_from(s@) matches Some(v) ==> r == Ok::<Muxer, String>(v),
            muxer_from(s@) is None ==> (r matches Err(m) && m@ == "Unknown muxer: "@ + s@),
    {
        let k = to_lowercase(s);
        let k = k.as_str();
        if str_eq(k, "ffmpeg") {
            Ok(Muxer::FFmpeg)
        } else if str_eq(k, "mkvmerge") {
            Ok(Muxer::MKVMerge)
        } else {
            Err(String::from_str("Unknown muxer: ").concat(s))
        }
    }
}

impl Default for Muxer {
    fn default() -> (r: Self)
        ensures
            r == Muxer::FFmpeg,
    {
        Muxer::FFmpeg
    }
}

impl std::str::FromStr for Muxer {
    type Err = String;

    fn from_str(s: &str) -> (r: Result<Muxer, String>)
        ensures
            muxer_from(s@) matches Some(v) ==> r == Ok::<Muxer, String>(v),
            muxer_from(s@) is None ==> (r matches Err(m) && m@ == "Unknown muxer: "@ + s@),
    {
        Muxer::parse(s)
    }
}

/// HLS encryption method.
#[allow(non_camel_case_types)]
#[derive(Debug, Clone, Copy, PartialEq, Eq, Hash, Structural)]
pub enum HlsEncryptionMethod {
    AES_128,
    AES_128_ECB,
    CENC,
    CHACHA20,
    NONE,
    SAMPLE_AES,
    SAMPLE_AES_CTR,
    UNKNOWN,
}

/// The text form of a `HlsEncryptionMethod`.
pub open spec fn hls_method_text(v: HlsEncryptionMethod) -> Seq<char> {
    match v {
        HlsEncryptionMethod::AES_128 => "AES_128"@,
        HlsEncryptionMethod::AES_128_ECB => "AES_128_ECB"@,
        HlsEncryptionMethod::CENC => "CENC"@,
        HlsEncryptionMethod::CHACHA20 => "CHACHA20"@,
        HlsEncryptionMethod::NONE => "NONE"@,
        HlsEncryptionMethod::SAMPLE_AES => "SAMPLE_AES"@,
        HlsEncryptionMethod::SAMPLE_AES_CTR => "SAMPLE_AES_CTR"@,
        HlsEncryptionMethod::UNKNOWN => "UNKNOWN"@,
    }
}

/// The `HlsEncryptionMethod` named by `s` (after uppercasing), if any.
pub open spec fn hls_method_from(s: Seq<char>) -> Option<HlsEncryptionMethod> {
    let k = uppercase_of(s);
    if k == "AES_128"@ {
        Some(HlsEncryptionMethod::AES_128)
    } else if k == "AES_128_ECB"@ {
        Some(HlsEncryptionMethod::AES_128_ECB)
    } else if k == "CENC"@ {
        Some(HlsEncryptionMethod::CENC)
    } else if k == "CHACHA20"@ {
        Some(HlsEncryptionMethod::CHACHA20)
    } else if k == "NONE"@ {
        Some(HlsEncryptionMethod::NONE)
    } else if k == "SAMPLE_AES"@ {
        Some(HlsEncryptionMethod::SAMPLE_AES)
    } else if k == "SAMPLE_AES_CTR"@ {
        Some(HlsEncryptionMethod::SAMPLE_AES_CTR)
    } else if k == "UNKNOWN"@ {
        Some(HlsEncryptionMethod::UNKNOWN)
    } else {
        None
    }
}

impl HlsEncryptionMethod {
    /// The text form.
    pub fn as_str(self) -> (r: &'static str)
        ensures
            r@ == hls_method_text(self),
    {
        match self {
            HlsEncryptionMethod::AES_128 => "AES_128",
            HlsEncryptionMethod::AES_128_ECB => "AES_128_ECB",
            HlsEncryptionMethod::CENC => "CENC",
            HlsEncryptionMethod::CHACHA20 => "CHACHA20",
            HlsEncryptionMethod::NONE => "NONE",
            HlsEncryptionMethod::SAMPLE_AES => "SAMPLE_AES",
            HlsEncryptionMethod::SAMPLE_AES_CTR => "SAMPLE_AES_CTR",
            HlsEncryptionMethod::UNKNOWN => "UNKNOWN",
        }
    }

    /// Parses the text form; anything else is an error naming the input.
    pub fn parse(s: &str) -> (r: Result<HlsEncryptionMethod, String>)
        ensures
            hls_method_from(s@) matches Some(v) ==> r == Ok::<HlsEncryptionMethod, String>(v),
            hls_method_from(s@) is None ==> (r matches Err(m) && m@ == "Unknown HLS encryption method: "@ + s@),
    {
        let k = to_uppercase(s);
        let k = k.as_str();
        if str_eq(k, "AES_128") {
            Ok(HlsEncryptionMethod::AES_128)
        } else if str_eq(k, "AES_128_ECB") {
            Ok(HlsEncryptionMethod::AES_128_ECB)
        } else if str_eq(k, "CENC") {
            Ok(HlsEncryptionMethod::CENC)
        } else if str_eq(k, "CHACHA20") {
            Ok(HlsEncryptionMethod::CHACHA20)
        } else if str_eq(k, "NONE") {
            Ok(HlsEncryptionMethod::NONE)
        } else if str_eq(k, "SAMPLE_AES") {
            Ok(HlsEncryptionMethod::SAMPLE_AES)
        } else if str_eq(k, "SAMPLE_AES_CTR") {
            Ok(HlsEncryptionMethod::SAMPLE_AES_CTR)
        } else if str_eq(k, "UNKNOWN") {
            Ok(HlsEncryptionMethod::UNKNOWN)
        } else {
            Err(String::from_str("Unknown HLS encryption method: ").concat(s))
        }
    }
}

impl Default for HlsEncryptionMethod {
    fn default() -> (r: Self)
        ensures
            r == HlsEncryptionMethod::UNKNOWN,
    {
        HlsEncryptionMethod::UNKNOWN
    }
}

impl std::str::FromStr for HlsEncryptionMethod {
    type Err = String;

    fn from_str(s: &str) -> (r: Result<HlsEncryptionMethod, String>)
        ensures
            hls_method_from(s@) matches Some(v) ==> r == Ok::<HlsEncryptionMethod, String>(v),
            hls_method_from(s@) is None ==> (r matches Err(m) && m@ == "Unknown HLS encryption method: "@ + s@),
    {
        HlsEncryptionMethod::parse(s)
    }
}

/// How a key or IV value is written.
#[derive(Debug, Clone, Copy, PartialEq, Eq, Hash, Structural)]
pub enum KeyValueType {
    File,
    Hex,
    Base64,
}

/// The text form of a `KeyValueType`.
pub open spec fn key_value_type_text(v: KeyValueType) -> Seq<char> {
    match v {
        KeyValueType::File => "file"@,
        KeyValueType::Hex => "hex"@,
        KeyValueType::Base64 => "base64"@,
    }
}

/// The `KeyValueType` named by `s` (after lowercasing), if any.
pub open spec fn key_value_type_from(s: Seq<char>) -> Option<KeyValueType> {
    let k = lowercase_of(s);
    if k == "file"@ {
        Some(KeyValueType::File)
    } else if k == "hex"@ {
        Some(KeyValueType::Hex)
    } else if k == "base64"@ {
        Some(KeyValueType::Base64)
    } else {
        None
    }
}

impl KeyValueType {
    /// The text form.
    pub fn as_str(self) -> (r: &'static str)
        ensures
            r@ == key_value_type_text(self),
    {
        match self {
            KeyValueType::File => "file",
            KeyValueType::Hex => "hex",
            KeyValueType::Base64 => "base64",
        }
    }

    /// Parses the text form; anything else is an error naming the input.
    pub fn parse(s: &str) -> (r: Result<KeyValueType, String>)
        ensures
            key_value_type_from(s@) matches Some(v) ==> r == Ok::<KeyValueType, String>(v),
            key_value_type_from(s@) is None ==> (r matches Err(m) && m@ == "Unknown key value type: "@ + s@),
    {
        let k = to_lowercase(s);
        let k = k.as_str();
        if str_eq(k, "file") {
            Ok(KeyValueType::File)
        } else if str_eq(k, "hex") {
            Ok(KeyValueType::Hex)
        } else if str_eq(k, "base64") {
            Ok(KeyValueType::Base64)
        } else {
            Err(String::from_str("Unknown key value type: ").concat(s))
        }
    }
}

impl Default for KeyValueType {
    fn default() -> (r: Self)
        ensures
            r == KeyValueType::Hex,
    {
        KeyValueType::Hex
    }
}

impl std::str::FromStr for KeyValueType {
    type Err = String;

    fn from_str(s: &str) -> (r: Result<KeyValueType, String>)
        ensures
            key_value_type_from(s@) matches Some(v) ==> r == Ok::<KeyValueType, String>(v),
            key_value_type_from(s@) is None ==> (r matches Err(m) && m@ == "Unknown key value type: "@ + s@),
    {
        KeyValueType::parse(s)
    }
}

/// Subtitle format.
#[derive(Debug, Clone, Copy, PartialEq, Eq, Hash, Structural)]
pub enum SubtitleFormat {
    SRT,
    VTT,
}

/// The text form of a `SubtitleFormat`.
pub open spec fn subtitle_format_text(v: SubtitleFormat) -> Seq<char> {
    match v {
        SubtitleFormat::SRT => "SRT"@,
        SubtitleFormat::VTT => "VTT"@,
    }
}

/// The `SubtitleFormat` named by `s` (after uppercasing), if any.
pub open spec fn subtitle_format_from(s: Seq<char>) -> Option<SubtitleFormat> {
    let k = uppercase_of(s);
    if k == "SRT"@ {
        Some(SubtitleFormat::SRT)
    } else if k == "VTT"@ {
        Some(SubtitleFormat::VTT)
    } else if k == "WEBVTT"@ {
        Some(SubtitleFormat::VTT)
    } else {
        None
    }
}

impl SubtitleFormat {
    /// The text form.
    pub fn as_str(self) -> (r: &'static str)
        ensures
            r@ == subtitle_format_text(self),
    {
        match self {
            SubtitleFormat::SRT => "SRT",
            SubtitleFormat::VTT => "VTT",
        }
    }

    /// Parses the text form; anything else is an error naming the input.
    pub fn parse(s: &str) -> (r: Result<SubtitleFormat, String>)
        ensures
            subtitle_format_from(s@) matches Some(v) ==> r == Ok::<SubtitleFormat, String>(v),
            subtitle_format_from(s@) is None ==> (r matches Err(m) && m@ == "Unknown subtitle format: "@ + s@),
    {
        let k = to_uppercase(s);
        let k = k.as_str();
        if str_eq(k, "SRT") {
            Ok(SubtitleFormat::SRT)
        } else if str_eq(k, "VTT") {
            Ok(SubtitleFormat::VTT)
        } else if str_eq(k, "WEBVTT") {
            Ok(SubtitleFormat::VTT)
        } else {
            Err(String::from_str("Unknown subtitle format: ").concat(s))
        }
    }
}

impl Default for SubtitleFormat {
    fn default() -> (r: Self)
        ensures
            r == SubtitleFormat::SRT,
    {
        SubtitleFormat::SRT
    }
}

impl std::str::FromStr for SubtitleFormat {
    type Err = String;

    fn from_str(s: &str) -> (r: Result<SubtitleFormat, String>)
        ensures
            subtitle_format_from(s@) matches Some(v) ==> r == Ok::<SubtitleFormat, String>(v),
            subtitle_format_from(s@) is None ==> (r matches Err(m) && m@ == "Unknown subtitle format: "@ + s@),
    {
        SubtitleFormat::parse(s)
    }
}

/// UI theme.
#[derive(Debug, Clone, Copy, PartialEq, Eq, Hash, Structural)]
pub enum Theme {
    Light,
    Dark,
    System,
}

/// The text form of a `Theme`.
pub open spec fn theme_text(v: Theme) -> Seq<char> {
    match v {
        Theme::Light => "light"@,
        Theme::Dark => "dark"@,
        Theme::System => "system"@,
    }
}

/// The `Theme` named by `s` (after lowercasing), if any.
pub open spec fn theme_from(s: Seq<char>) -> Option<Theme> {
    let k = lowercase_of(s);
    if k == "light"@ {
        Some(Theme::Light)
    } else if k == "dark"@ {
        Some(Theme::Dark)
    } else if k == "system"@ {
        Some(Theme::System)
    } else {
        None
    }
}

impl Theme {
    /// The text form.
    pub fn as_str(self) -> (r: &'static str)
        ensures
            r@ == theme_text(self),
    {
        match self {
            Theme::Light => "light",
            Theme::Dark => "dark",
            Theme::System => "system",
        }
    }

    /// Parses the text form; anything else is an error naming the input.
    pub fn parse(s: &str) -> (r: Result<Theme, String>)
        ensures
            theme_from(s@) matches Some(v) ==> r == Ok::<Theme, String>(v),
            theme_from(s@) is None ==> (r matches Err(m) && m@ == "Unknown theme: "@ + s@),
    {
        let k = to_lowercase(s);
        let k = k.as_str();
        if str_eq(k, "light") {
            Ok(Theme::Light)
        } else if str_eq(k, "dark") {
            Ok(Theme::Dark)
        } else if str_eq(k, "system") {
            Ok(Theme::System)
        } else {
            Err(String::from_str("Unknown theme: ").concat(s))
        }
    }
}

impl Default for Theme {
    fn default() -> (r: Self)
        ensures
            r == Theme::Dark,
    {
        Theme::Dark
    }
}

impl std::str::FromStr for Theme {
    type Err = String;

    fn from_str(s: &str) -> (r: Result<Theme, String>)
        ensures
            theme_from(s@) matches Some(v) ==> r == Ok::<Theme, String>(v),
            theme_from(s@) is None ==> (r matches Err(m) && m@ == "Unknown theme: "@ + s@),
    {
        Theme::parse(s)
    }
}

/// UI language.
#[derive(Debug, Clone, Copy, PartialEq, Eq, Hash, Structural)]
pub enum Language {
    ZhCN,
    ZhTW,
    EnUS,
}

/// The text form of a `Language`.
pub open spec fn language_text(v: Language) -> Seq<char> {
    match v {
        Language::ZhCN => "zh-CN"@,
        Language::ZhTW => "zh-TW"@,
        Language::EnUS => "en-US"@,
    }
}

/// The `Language` named by `s` (exactly), if any.
pub open spec fn language_from(s: Seq<char>) -> Option<Language> {
    let k = s;
    if k == "zh-CN"@ {
        Some(Language::ZhCN)
    } else if k == "zh-TW"@ {
        Some(Language::ZhTW)
    } else if k == "en-US"@ {
        Some(Language::EnUS)
    } else {
        None
    }
}

impl Language {
    /// The text form.
    pub fn as_str(self) -> (r: &'static str)
        ensures
            r@ == language_text(self),
    {
        match self {
            Language::ZhCN => "zh-CN",
            Language::ZhTW => "zh-TW",
            Language::EnUS => "en-US",
        }
    }

    /// Parses the text form; anything else is an error naming the input.
    pub fn parse(s: &str) -> (r: Result<Language, String>)
        ensures
            language_from(s@) matches Some(v) ==> r == Ok::<Language, String>(v),
            language_from(s@) is None ==> (r matches Err(m) && m@ == "Unknown language: "@ + s@),
    {
        let k = s;
        if str_eq(k, "zh-CN") {
            Ok(Language::ZhCN)
        } else if str_eq(k, "zh-TW") {
            Ok(Language::ZhTW)
        } else if str_eq(k, "en-US") {
            Ok(Language::EnUS)
        } else {
            Err(String::from_str("Unknown language: ").concat(s))
        }
    }
}

impl Default for Language {
    fn default() -> (r: Self)
        ensures
            r == Language::ZhCN,
    {
        Language::ZhCN
    }
}

impl std::str::FromStr for Language {
    type Err = String;

    fn from_str(s: &str) -> (r: Result<Language, String>)
        ensures
            language_from(s@) matches Some(v) ==> r == Ok::<Language, String>(v),
            language_from(s@) is None ==> (r matches Err(m) && m@ == "Unknown language: "@ + s@),
    {
        Language::parse(s)
    }
}

/// Log level.
#[derive(Debug, Clone, Copy, PartialEq, Eq, Hash, Structural)]
pub enum LogLevel {
    Debug,
    Info,
    Warn,
    Error,
    Off,
}

/// The text form of a `LogLevel`.
pub open spec fn log_level_text(v: LogLevel) -> Seq<char> {
    match v {
        LogLevel::Debug => "DEBUG"@,
        LogLevel::Info => "INFO"@,
        LogLevel::Warn => "WARN"@,
        LogLevel::Error => "ERROR"@,
        LogLevel::Off => "OFF"@,
    }
}

/// The `LogLevel` named by `s` (after uppercasing), if any.
pub open spec fn log_level_from(s: Seq<char>) -> Option<LogLevel> {
    let k = uppercase_of(s);
    if k == "DEBUG"@ {
        Some(LogLevel::Debug)
    } else if k == "INFO"@ {
        Some(LogLevel::Info)
    } else if k == "WARN"@ {
        Some(LogLevel::Warn)
    } else if k == "ERROR"@ {
        Some(LogLevel::Error)
    } else if k == "OFF"@ {
        Some(LogLevel::Off)
    } else {
        None
    }
}

impl LogLevel {
    /// The text form.
    pub fn as_str(self) -> (r: &'static str)
        ensures
            r@ == log_level_text(self),
    {
        match self {
            LogLevel::Debug => "DEBUG",
            LogLevel::Info => "INFO",
            LogLevel::Warn => "WARN",
            LogLevel::Error => "ERROR",
            LogLevel::Off => "OFF",
        }
    }

    /// Parses the text form; anything else is an error naming the input.
    pub fn parse(s: &str) -> (r: Result<LogLevel, String>)
        ensures
            log_level_from(s@) matches Some(v) ==> r == Ok::<LogLevel, String>(v),
            log_level_from(s@) is None ==> (r matches Err(m) && m@ == "Unknown log level: "@ + s@),
    {
        let k = to_uppercase(s);
        let k = k.as_str();
        if str_eq(k, "DEBUG") {
            Ok(LogLevel::Debug)
        } else if str_eq(k, "INFO") {
            Ok(LogLevel::Info)
        } else if str_eq(k, "WARN") {
            Ok(LogLevel::Warn)
        } else if str_eq(k, "ERROR") {
            Ok(LogLevel::Error)
        } else if str_eq(k, "OFF") {
            Ok(LogLevel::Off)
        } else {
            Err(String::from_str("Unknown log level: ").concat(s))
        }
    }
}

impl Default for LogLevel {
    fn default() -> (r: Self)
        ensures
            r == LogLevel::Info,
    {
        LogLevel::Info
    }
}

impl std::str::FromStr for LogLevel {
    type Err = String;

    fn from_str(s: &str) -> (r: Result<LogLevel, String>)
        ensures
            log_level_from(s@) matches Some(v) ==> r == Ok::<LogLevel, String>(v),
            log_level_from(s@) is None ==> (r matches Err(m) && m@ == "Unknown log level: "@ + s@),
    {
        LogLevel::parse(s)
    }
}

} // verus!
