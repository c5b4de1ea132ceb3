//! Error codes of the Snap7 client library, as documented for Sharp7.
use vstd::prelude::*;
use crate::decimal::{int_decimal, spec_int_decimal};

verus! {

/// Snap7 documented error codes.
///
/// An undocumented code becomes [S7Error::Inner], which carries the text the
/// library gives for it followed by the code in brackets.
#[derive(Debug)]
pub enum S7Error {
    TCPSocketCreation,
    TCPConnectionTimeout,
    TCPConnectionFailed,
    TCPReceiveTimeout,
    TCPDataReceive,
    TCPSendTimeout,
    TCPDataSend,
    TCPConnectionReset,
    TCPNotConnected,
    TCPUnreachableHost,
    IsoConnect,
    IsoInvalidPDU,
    IsoInvalidDataSize,
    CliNegotiatingPDU,
    CliInvalidParams,
    CliJobPending,
    CliTooManyItems,
    CliInvalidWordLen,
    CliPartialDataWritten,
    CliSizeOverPDU,
    CliInvalidPlcAnswer,
    CliAddressOutOfRange,
    CliInvalidTransportSize,
    CliWriteDataSizeMismatch,
    CliItemNotAvailable,
    CliInvalidValue,
    CliCannotStartPLC,
    CliAlreadyRun,
    CliCannotStopPLC,
    CliCannotCopyRamToRom,
    CliCannotCompress,
    CliAlreadyStop,
    CliFunNotAvailable,
    CliUploadSequenceFailed,
    CliInvalidDataSizeRecvd,
    CliInvalidBlockType,
    CliInvalidBlockNumber,
    CliInvalidBlockSize,
    CliNeedPassword,
    CliInvalidPassword,
    CliNoPasswordToSetOrClear,
    CliJobTimeout,
    CliPartialDataRead,
    CliBufferTooSmall,
    CliFunctionRefused,
    CliDestroying,
    CliInvalidParamNumber,
    CliCannotChangeParam,
    CliFunctionNotImplemented,
    Inner(String),
}

/// The Snap7 code of each documented error.
pub open spec fn spec_error_code(e: S7Error) -> i32 {
    match e {
        S7Error::TCPSocketCreation => 1,
        S7Error::TCPConnectionTimeout => 2,
        S7Error::TCPConnectionFailed => 3,
        S7Error::TCPReceiveTimeout => 4,
        S7Error::TCPDataReceive => 5,
        S7Error::TCPSendTimeout => 6,
        S7Error::TCPDataSend => 7,
        S7Error::TCPConnectionReset => 8,
        S7Error::TCPNotConnected => 9,
        S7Error::TCPUnreachableHost => 10065,
        S7Error::IsoConnect => 65536,
        S7Error::IsoInvalidPDU => 196608,
        S7Error::IsoInvalidDataSize => 262144,
        S7Error::CliNegotiatingPDU => 1048576,
        S7Error::CliInvalidParams => 2097152,
        S7Error::CliJobPending => 3145728,
        S7Error::CliTooManyItems => 4194304,
        S7Error::CliInvalidWordLen => 5242880,
        S7Error::CliPartialDataWritten => 6291456,
        S7Error::CliSizeOverPDU => 7340032,
        S7Error::CliInvalidPlcAnswer => 8388608,
        S7Error::CliAddressOutOfRange => 9437184,
        S7Error::CliInvalidTransportSize => 10485760,
        S7Error::CliWriteDataSizeMismatch => 11534336,
        S7Error::CliItemNotAvailable => 12582912,
        S7Error::CliInvalidValue => 13631488,
        S7Error::CliCannotStartPLC => 14680064,
        S7Error::CliAlreadyRun => 15728640,
        S7Error::CliCannotStopPLC => 16777216,
        S7Error::CliCannotCopyRamToRom => 17825792,
        S7Error::CliCannotCompress => 18874368,
        S7Error::CliAlreadyStop => 19922944,
        S7Error::CliFunNotAvailable => 20971520,
        S7Error::CliUploadSequenceFailed => 22020096,
        S7Error::CliInvalidDataSizeRecvd => 23068672,
        S7Error::CliInvalidBlockType => 24117248,
        S7Error::CliInvalidBlockNumber => 25165824,
        S7Error::CliInvalidBlockSize => 26214400,
        S7Error::CliNeedPassword => 30408704,
        S7Error::CliInvalidPassword => 31457280,
        S7Error::CliNoPasswordToSetOrClear => 32505856,
        S7Error::CliJobTimeout => 33554432,
        S7Error::CliPartialDataRead => 34603008,
        S7Error::CliBufferTooSmall => 35651584,
        S7Error::CliFunctionRefused => 36700160,
        S7Error::CliDestroying => 37748736,
        S7Error::CliInvalidParamNumber => 38797312,
        S7Error::CliCannotChangeParam => 39845888,
        S7Error::CliFunctionNotImplemented => 40894464,
        S7Error::Inner(_) => 0,
    }
}

/// The documented error that `code` stands for, if any.
pub open spec fn spec_documented(code: i32) -> Option<S7Error> {
    if code == 1 {
        Some(S7Error::TCPSocketCreation)
    } else 
    if code == 2 {
        Some(S7Error::TCPConnectionTimeout)
    } else 
    if code == 3 {
        Some(S7Error::TCPConnectionFailed)
    } else 
    if code == 4 {
        Some(S7Error::TCPReceiveTimeout)
    } else 
    if code == 5 {
        Some(S7Error::TCPDataReceive)
    } else 
    if code == 6 {
        Some(S7Error::TCPSendTimeout)
    } else 
    if code == 7 {
        Some(S7Error::TCPDataSend)
    } else 
    if code == 8 {
        Some(S7Error::TCPConnectionReset)
    } else 
    if code == 9 {
        Some(S7Error::TCPNotConnected)
    } else 
    if code == 10065 {
        Some(S7Error::TCPUnreachableHost)
    } else 
    if code == 65536 {
        Some(S7Error::IsoConnect)
    } else 
    if code == 196608 {
        Some(S7Error::IsoInvalidPDU)
    } else 
    if code == 262144 {
        Some(S7Error::IsoInvalidDataSize)
    } else 
    if code == 1048576 {
        Some(S7Error::CliNegotiatingPDU)
    } else 
    if code == 2097152 {
        Some(S7Error::CliInvalidParams)
    } else 
    if code == 3145728 {
        Some(S7Error::CliJobPending)
    } else 
    if code == 4194304 {
        Some(S7Error::CliTooManyItems)
    } else 
    if code == 5242880 {
        Some(S7Error::CliInvalidWordLen)
    } else 
    if code == 6291456 {
        Some(S7Error::CliPartialDataWritten)
    } else 
    if code == 7340032 {
        Some(S7Error::CliSizeOverPDU)
    } else 
    if code == 8388608 {
        Some(S7Error::CliInvalidPlcAnswer)
    } else 
    if code == 9437184 {
        Some(S7Error::CliAddressOutOfRange)
    } else 
    if code == 10485760 {
        Some(S7Error::CliInvalidTransportSize)
    } else 
    if code == 11534336 {
        Some(S7Error::CliWriteDataSizeMismatch)
    } else 
    if code == 12582912 {
        Some(S7Error::CliItemNotAvailable)
    } else 
    if code == 13631488 {
        Some(S7Error::CliInvalidValue)
    } else 
    if code == 14680064 {
        Some(S7Error::CliCannotStartPLC)
    } else 
    if code == 15728640 {
        Some(S7Error::CliAlreadyRun)
    } else 
    if code == 16777216 {
        Some(S7Error::CliCannotStopPLC)
    } else 
    if code == 17825792 {
        Some(S7Error::CliCannotCopyRamToRom)
    } else 
    if code == 18874368 {
        Some(S7Error::CliCannotCompress)
    } else 
    if code == 19922944 {
        Some(S7Error::CliAlreadyStop)
    } else 
    if code == 20971520 {
        Some(S7Error::CliFunNotAvailable)
    } else 
    if code == 22020096 {
        Some(S7Error::CliUploadSequenceFailed)
    } else 
    if code == 23068672 {
        Some(S7Error::CliInvalidDataSizeRecvd)
    } else 
    if code == 24117248 {
        Some(S7Error::CliInvalidBlockType)
    } else 
    if code == 25165824 {
        Some(S7Error::CliInvalidBlockNumber)
    } else 
    if code == 26214400 {
        Some(S7Error::CliInvalidBlockSize)
    } else 
    if code == 30408704 {
        Some(S7Error::CliNeedPassword)
    } else 
    if code == 31457280 {
        Some(S7Error::CliInvalidPassword)
    } else 
    if code == 32505856 {
        Some(S7Error::CliNoPasswordToSetOrClear)
    } else 
    if code == 33554432 {
        Some(S7Error::CliJobTimeout)
    } else 
    if code == 34603008 {
        Some(S7Error::CliPartialDataRead)
    } else 
    if code == 35651584 {
        Some(S7Error::CliBufferTooSmall)
    } else 
    if code == 36700160 {
        Some(S7Error::CliFunctionRefused)
    } else 
    if code == 37748736 {
        Some(S7Error::CliDestroying)
    } else 
    if code == 38797312 {
        Some(S7Error::CliInvalidParamNumber)
    } else 
    if code == 39845888 {
        Some(S7Error::CliCannotChangeParam)
    } else 
    if code == 40894464 {
        Some(S7Error::CliFunctionNotImplemented)
    } else {
        None
    }
}

/// The text of an undocumented error: the library's text for `code`, then
/// the code in brackets.
pub open spec fn spec_inner_text(text: Seq<char>, code: i32) -> Seq<char> {
    text + " ("@ + spec_int_decimal(code as int) + ")"@
}

/// Returns the documented error of `code`, if it has one; no library text is
/// needed for a documented code.
pub fn documented(code: i32) -> (res: Option<S7Error>)
    ensures
        res == spec_documented(code),
{
    if code == 1 {
            Some(S7Error::TCPSocketCreation)
        } else 
        if code == 2 {
            Some(S7Error::TCPConnectionTimeout)
        } else 
        if code == 3 {
            Some(S7Error::TCPConnectionFailed)
        } else 
        if code == 4 {
            Some(S7Error::TCPReceiveTimeout)
        } else 
        if code == 5 {
            Some(S7Error::TCPDataReceive)
        } else 
        if code == 6 {
            Some(S7Error::TCPSendTimeout)
        } else 
        if code == 7 {
            Some(S7Error::TCPDataSend)
        } else 
        if code == 8 {
            Some(S7Error::TCPConnectionReset)
        } else 
        if code == 9 {
            Some(S7Error::TCPNotConnected)
        } else 
        if code == 10065 {
            Some(S7Error::TCPUnreachableHost)
        } else 
        if code == 65536 {
            Some(S7Error::IsoConnect)
        } else 
        if code == 196608 {
            Some(S7Error::IsoInvalidPDU)
        } else 
        if code == 262144 {
            Some(S7Error::IsoInvalidDataSize)
        } else 
        if code == 1048576 {
            Some(S7Error::CliNegotiatingPDU)
        } else 
        if code == 2097152 {
            Some(S7Error::CliInvalidParams)
        } else 
        if code == 3145728 {
            Some(S7Error::CliJobPending)
        } else 
        if code == 4194304 {
            Some(S7Error::CliTooManyItems)
        } else 
        if code == 5242880 {
            Some(S7Error::CliInvalidWordLen)
        } else 
        if code == 6291456 {
            Some(S7Error::CliPartialDataWritten)
        } else 
        if code == 7340032 {
            Some(S7Error::CliSizeOverPDU)
        } else 
        if code == 8388608 {
            Some(S7Error::CliInvalidPlcAnswer)
        } else 
        if code == 9437184 {
            Some(S7Error::CliAddressOutOfRange)
        } else 
        if code == 10485760 {
            Some(S7Error::CliInvalidTransportSize)
        } else 
        if code == 11534336 {
            Some(S7Error::CliWriteDataSizeMismatch)
        } else 
        if code == 12582912 {
            Some(S7Error::CliItemNotAvailable)
        } else 
        if code == 13631488 {
            Some(S7Error::CliInvalidValue)
        } else 
        if code == 14680064 {
            Some(S7Error::CliCannotStartPLC)
        } else 
        if code == 15728640 {
            Some(S7Error::CliAlreadyRun)
        } else 
        if code == 16777216 {
            Some(S7Error::CliCannotStopPLC)
        } else 
        if code == 17825792 {
            Some(S7Error::CliCannotCopyRamToRom)
        } else 
        if code == 18874368 {
            Some(S7Error::CliCannotCompress)
        } else 
        if code == 19922944 {
            Some(S7Error::CliAlreadyStop)
        } else 
        if code == 20971520 {
            Some(S7Error::CliFunNotAvailable)
        } else 
        if code == 22020096 {
            Some(S7Error::CliUploadSequenceFailed)
        } else 
        if code == 23068672 {
            Some(S7Error::CliInvalidDataSizeRecvd)
        } else 
        if code == 24117248 {
            Some(S7Error::CliInvalidBlockType)
        } else 
        if code == 25165824 {
            Some(S7Error::CliInvalidBlockNumber)
        } else 
        if code == 26214400 {
            Some(S7Error::CliInvalidBlockSize)
        } else 
        if code == 30408704 {
            Some(S7Error::CliNeedPassword)
        } else 
        if code == 31457280 {
            Some(S7Error::CliInvalidPassword)
        } else 
        if code == 32505856 {
            Some(S7Error::CliNoPasswordToSetOrClear)
        } else 
        if code == 33554432 {
            Some(S7Error::CliJobTimeout)
        } else 
        if code == 34603008 {
            Some(S7Error::CliPartialDataRead)
        } else 
        if code == 35651584 {
            Some(S7Error::CliBufferTooSmall)
        } else 
        if code == 36700160 {
            Some(S7Error::CliFunctionRefused)
        } else 
        if code == 37748736 {
            Some(S7Error::CliDestroying)
        } else 
        if code == 38797312 {
            Some(S7Error::CliInvalidParamNumber)
        } else 
        if code == 39845888 {
            Some(S7Error::CliCannotChangeParam)
        } else 
        if code == 40894464 {
            Some(S7Error::CliFunctionNotImplemented)
        } else {
        None
    }
}

impl S7Error {
    /// Returns the error that the Snap7 `code` stands for; `text` is the
    /// description that the library gives of `code`, which is used for an
    /// undocumented code.
    pub fn from_code(code: i32, text: String) -> (res: S7Error)
        ensures
            match spec_documented(code) {
                Some(e) => res == e,
                None => res matches S7Error::Inner(m) && m@ == spec_inner_text(text@, code),
            },
    {
        match documented(code) {
            Some(e) => e,
            None => {
                let digits = int_decimal(code as i64);
                proof {
                    reveal_strlit(" (");
                    reveal_strlit(")");
                }
                let mut message = text;
                message.append(" (");
                message.append(digits.as_str());
                message.append(")");
                S7Error::Inner(message)
            },
        }
    }
}

/// Every documented error is recovered from its code.
pub proof fn lemma_documented_code_roundtrip(e: S7Error)
    requires
        !(e is Inner),
    ensures
        spec_documented(spec_error_code(e)) == Some(e),
{
}

/// A code that stands for a documented error is that error's code.
pub proof fn lemma_documented_is_code(code: i32)
    ensures
        spec_documented(code) matches Some(e) ==> !(e is Inner) && spec_error_code(e) == code,
{
}

} // verus!
