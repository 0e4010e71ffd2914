//! Assembler mnemonics produced by the decoder.

use vstd::prelude::*;

verus! {

/// The assembler mnemonic of a decoded instruction (aliases such as `mov`,
/// `cmp` or `lsl` are mnemonics of their own).
#[allow(non_camel_case_types)]
#[derive(Debug, Clone, Copy, PartialEq, Eq, Hash, Default, Structural)]
pub enum Mnemonic {
    #[default]
    Invalid,
    Abs,
    Adc,
    Adcs,
    Add,
    Addg,
    Addhn,
    Addhn2,
    Addp,
    Adds,
    Addv,
    Adr,
    Adrp,
    Aesd,
    Aese,
    Aesimc,
    Aesmc,
    And,
    Ands,
    Asr,
    At,
    Autia1716,
    Autiasp,
    Autiaz,
    Autib1716,
    Autibsp,
    Autibz,
    B,
    Bcond,
    Bfdot,
    Bfm,
    Bfmmla,
    Bic,
    Bics,
    Bif,
    Bit,
    Bl,
    Blr,
    Blraa,
    Blraaz,
    Blrab,
    Blrabz,
    Br,
    Braa,
    Braaz,
    Brab,
    Brabz,
    Brk,
    Bsl,
    Bti,
    Cas,
    Casa,
    Casab,
    Casah,
    Casal,
    Casalb,
    Casalh,
    Casb,
    Cash,
    Casl,
    Caslb,
    Caslh,
    Casp,
    Caspa,
    Caspal,
    Caspl,
    Cbnz,
    Cbz,
    Ccmn,
    Ccmp,
    Cinc,
    Cinv,
    Clrbhb,
    Cls,
    Clz,
    Cmeq,
    Cmge,
    Cmgt,
    Cmhi,
    Cmhs,
    Cmle,
    Cmlt,
    Cmn,
    Cmp,
    Cneg,
    Cnt,
    Crc32b,
    Crc32cb,
    Crc32ch,
    Crc32cw,
    Crc32cx,
    Crc32h,
    Crc32w,
    Crc32x,
    Csel,
    Cset,
    Csetm,
    Csinc,
    Csinv,
    Csneg,
    Ctz,
    Dc,
    Dcps1,
    Dmb,
    Dsb,
    Dup,
    Eon,
    Eor,
    Ext,
    Extr,
    Fabd,
    Fabs,
    Fadd,
    Faddp,
    Fcadd,
    Fccmp,
    Fccmpe,
    Fcmeq,
    Fcmge,
    Fcmgt,
    Fcmla,
    Fcmp,
    Fcmpe,
    Fcsel,
    Fcvt,
    Fcvtas,
    Fcvtau,
    Fcvtms,
    Fcvtmu,
    Fcvtns,
    Fcvtnu,
    Fcvtps,
    Fcvtpu,
    Fcvtzs,
    Fcvtzu,
    Fdiv,
    Fmadd,
    Fmax,
    Fmaxnm,
    Fmaxnmv,
    Fmaxv,
    Fmin,
    Fminnm,
    Fminnmv,
    Fminv,
    Fmla,
    Fmls,
    Fmov,
    Fmsub,
    Fmul,
    Fmulx,
    Fneg,
    Fnmadd,
    Fnmsub,
    Fnmul,
    Frecpe,
    Frint32x,
    Frint32z,
    Frint64x,
    Frint64z,
    Frinta,
    Frinti,
    Frintm,
    Frintn,
    Frintp,
    Frintx,
    Frintz,
    Frsqrte,
    Fsqrt,
    Fsub,
    Gmi,
    Hint,
    Hlt,
    Hvc,
    Ic,
    Irg,
    Isb,
    Ld1,
    Ld1r,
    Ld2,
    Ld2r,
    Ld3,
    Ld3r,
    Ld4,
    Ld4r,
    Ld64b,
    Ldadd,
    Ldadda,
    Ldaddal,
    Ldaddl,
    Ldap1,
    Ldapr,
    Ldapur,
    Ldapurb,
    Ldapurh,
    Ldapursb,
    Ldapursh,
    Ldapursw,
    Ldar,
    Ldarb,
    Ldarh,
    Ldclr,
    Ldclra,
    Ldclral,
    Ldclrl,
    Ldeor,
    Ldeora,
    Ldeoral,
    Ldeorl,
    Ldg,
    Ldgm,
    Ldiapp,
    Ldnp,
    Ldp,
    Ldpsw,
    Ldr,
    Ldraa,
    Ldrab,
    Ldrb,
    Ldrh,
    Ldrsb,
    Ldrsh,
    Ldrsw,
    Ldset,
    Ldseta,
    Ldsetal,
    Ldsetl,
    Ldsmax,
    Ldsmaxa,
    Ldsmaxal,
    Ldsmaxl,
    Ldsmin,
    Ldsmina,
    Ldsminal,
    Ldsminl,
    Ldumax,
    Ldumaxa,
    Ldumaxal,
    Ldumaxl,
    Ldumin,
    Ldumina,
    Lduminal,
    Lduminl,
    Ldur,
    Ldxp,
    Ldxr,
    Ldxrb,
    Ldxrh,
    Lsl,
    Lsr,
    Madd,
    Mla,
    Mls,
    Mneg,
    Mov,
    Movi,
    Movk,
    Movn,
    Movz,
    Mrs,
    Msr,
    Msub,
    Mul,
    Mvn,
    Mvni,
    Neg,
    Negs,
    Nop,
    Orn,
    Orr,
    Pacia1716,
    Paciasp,
    Paciaz,
    Pacib1716,
    Pacibsp,
    Pacibz,
    Pmull,
    Pmull2,
    Prfm,
    Raddhn,
    Raddhn2,
    Rbit,
    Rcwcas,
    Rcwcasa,
    Rcwcasal,
    Rcwcasl,
    Rcwcasp,
    Rcwcaspa,
    Rcwcaspal,
    Rcwcaspl,
    Rcwclr,
    Rcwclra,
    Rcwclral,
    Rcwclrl,
    Rcwclrp,
    Rcwclrpa,
    Rcwclrpal,
    Rcwclrpl,
    Rcwscas,
    Rcwscasa,
    Rcwscasal,
    Rcwscasl,
    Rcwscasp,
    Rcwscaspa,
    Rcwscaspal,
    Rcwscaspl,
    Rcwsclr,
    Rcwsclra,
    Rcwsclral,
    Rcwsclrl,
    Rcwsclrp,
    Rcwsclrpa,
    Rcwsclrpal,
    Rcwsclrpl,
    Rcwset,
    Rcwseta,
    Rcwsetal,
    Rcwsetl,
    Rcwsetp,
    Rcwsetpa,
    Rcwsetpal,
    Rcwsetpl,
    Rcwsset,
    Rcwsseta,
    Rcwssetal,
    Rcwssetl,
    Rcwssetp,
    Rcwssetpa,
    Rcwssetpal,
    Rcwssetpl,
    Rcwsswp,
    Rcwsswpa,
    Rcwsswpal,
    Rcwsswpl,
    Rcwsswpp,
    Rcwsswppa,
    Rcwsswppal,
    Rcwsswppl,
    Rcwswp,
    Rcwswpa,
    Rcwswpal,
    Rcwswpl,
    Rcwswpp,
    Rcwswppa,
    Rcwswppal,
    Rcwswppl,
    Ret,
    Retaa,
    Retab,
    Rev,
    Rev16,
    Rev32,
    Rev64,
    Ror,
    Rshrn,
    Rshrn2,
    Sadalp,
    Saddl,
    Saddl2,
    Saddlp,
    Saddlv,
    Sb,
    Sbc,
    Sbcs,
    Sbfm,
    Scvtf,
    Sdiv,
    Sdot,
    Sev,
    Sevl,
    Sha1c,
    Sha1h,
    Sha1m,
    Sha1p,
    Sha1su0,
    Sha1su1,
    Sha256h,
    Sha256h2,
    Sha256su0,
    Sha256su1,
    Shl,
    Shll,
    Shll2,
    Shrn,
    Shrn2,
    Sli,
    Smaddl,
    Smax,
    Smaxv,
    Smc,
    Smin,
    Sminv,
    Smlal,
    Smlal2,
    Smlsl,
    Smlsl2,
    Smov,
    Smsubl,
    Smulh,
    Smull,
    Smull2,
    Sqdmlal,
    Sqdmlal2,
    Sqdmlsl,
    Sqdmlsl2,
    Sqdmulh,
    Sqdmull,
    Sqdmull2,
    Sqrdmlah,
    Sqrdmlsh,
    Sqrdmulh,
    Sqrshrn,
    Sqrshrn2,
    Sqrshrun,
    Sqrshrun2,
    Sqshl,
    Sqshlu,
    Sqshrn,
    Sqshrn2,
    Sqshrun,
    Sqshrun2,
    Sqxtn,
    Sqxtun,
    Sqxtun2,
    Sri,
    Srshr,
    Srsra,
    Sshl,
    Sshll,
    Sshll2,
    Sshr,
    Ssra,
    Ssubl,
    Ssubl2,
    St1,
    St2,
    St2g,
    St3,
    St4,
    St64b,
    St64bv,
    St64bv0,
    Stadd,
    Stclr,
    Steor,
    Steorl,
    Stg,
    Stgm,
    Stgp,
    Stilp,
    Stl1,
    Stlr,
    Stlrb,
    Stlrh,
    Stlur,
    Stlurb,
    Stlurh,
    Stnp,
    Stp,
    Str,
    Strb,
    Strh,
    Stset,
    Stsetl,
    Stsmax,
    Stsmaxl,
    Stsmin,
    Stsminl,
    Stumax,
    Stumin,
    Stur,
    Stxp,
    Stxr,
    Stxrb,
    Stxrh,
    Stz2g,
    Stzg,
    Stzgm,
    Sub,
    Subg,
    Subp,
    Subps,
    Subs,
    Sudot,
    Suqadd,
    Svc,
    Swp,
    Swpa,
    Swpab,
    Swpah,
    Swpal,
    Swpalb,
    Swpalh,
    Swpb,
    Swph,
    Swpl,
    Swplb,
    Swplh,
    Sys,
    Tbl,
    Tbnz,
    Tbx,
    Tbz,
    Tlbi,
    Trn1,
    Trn2,
    Tst,
    Uadalp,
    Uaddl,
    Uaddl2,
    Uaddlp,
    Uaddlv,
    Ubfm,
    Ucvtf,
    Udiv,
    Udot,
    Umaddl,
    Umax,
    Umaxv,
    Umin,
    Uminv,
    Umlal,
    Umlal2,
    Umlsl,
    Umlsl2,
    Umsubl,
    Umulh,
    Umull,
    Umull2,
    Undefined,
    Uqrshrn,
    Uqrshrn2,
    Uqshl,
    Uqshrn,
    Uqshrn2,
    Uqxtn,
    Urshr,
    Ursra,
    Usdot,
    Ushl,
    Ushll,
    Ushll2,
    Ushr,
    Usqadd,
    Usra,
    Usubl,
    Usubl2,
    Uzp1,
    Uzp2,
    Wfe,
    Wfi,
    Xpaclri,
    Xtn,
    Xtn2,
    Yield,
    Zip1,
    Zip2,
}

impl Mnemonic {
    /// The spelling of the mnemonic: its name in lower case.
    pub open spec fn text(self) -> Seq<char> {
        match self {
            Mnemonic::Invalid => "invalid"@,
            Mnemonic::Abs => "abs"@,
            Mnemonic::Adc => "adc"@,
            Mnemonic::Adcs => "adcs"@,
            Mnemonic::Add => "add"@,
            Mnemonic::Addg => "addg"@,
            Mnemonic::Addhn => "addhn"@,
            Mnemonic::Addhn2 => "addhn2"@,
            Mnemonic::Addp => "addp"@,
            Mnemonic::Adds => "adds"@,
            Mnemonic::Addv => "addv"@,
            Mnemonic::Adr => "adr"@,
            Mnemonic::Adrp => "adrp"@,
            Mnemonic::Aesd => "aesd"@,
            Mnemonic::Aese => "aese"@,
            Mnemonic::Aesimc => "aesimc"@,
            Mnemonic::Aesmc => "aesmc"@,
            Mnemonic::And => "and"@,
            Mnemonic::Ands => "ands"@,
            Mnemonic::Asr => "asr"@,
            Mnemonic::At => "at"@,
            Mnemonic::Autia1716 => "autia1716"@,
            Mnemonic::Autiasp => "autiasp"@,
            Mnemonic::Autiaz => "autiaz"@,
            Mnemonic::Autib1716 => "autib1716"@,
            Mnemonic::Autibsp => "autibsp"@,
            Mnemonic::Autibz => "autibz"@,
            Mnemonic::B => "b"@,
            Mnemonic::Bcond => "bcond"@,
            Mnemonic::Bfdot => "bfdot"@,
            Mnemonic::Bfm => "bfm"@,
            Mnemonic::Bfmmla => "bfmmla"@,
            Mnemonic::Bic => "bic"@,
            Mnemonic::Bics => "bics"@,
            Mnemonic::Bif => "bif"@,
            Mnemonic::Bit => "bit"@,
            Mnemonic::Bl => "bl"@,
            Mnemonic::Blr => "blr"@,
            Mnemonic::Blraa => "blraa"@,
            Mnemonic::Blraaz => "blraaz"@,
            Mnemonic::Blrab => "blrab"@,
            Mnemonic::Blrabz => "blrabz"@,
            Mnemonic::Br => "br"@,
            Mnemonic::Braa => "braa"@,
            Mnemonic::Braaz => "braaz"@,
            Mnemonic::Brab => "brab"@,
            Mnemonic::Brabz => "brabz"@,
            Mnemonic::Brk => "brk"@,
            Mnemonic::Bsl => "bsl"@,
            Mnemonic::Bti => "bti"@,
            Mnemonic::Cas => "cas"@,
            Mnemonic::Casa => "casa"@,
            Mnemonic::Casab => "casab"@,
            Mnemonic::Casah => "casah"@,
            Mnemonic::Casal => "casal"@,
            Mnemonic::Casalb => "casalb"@,
            Mnemonic::Casalh => "casalh"@,
            Mnemonic::Casb => "casb"@,
            Mnemonic::Cash => "cash"@,
            Mnemonic::Casl => "casl"@,
            Mnemonic::Caslb => "caslb"@,
            Mnemonic::Caslh => "caslh"@,
            Mnemonic::Casp => "casp"@,
            Mnemonic::Caspa => "caspa"@,
            Mnemonic::Caspal => "caspal"@,
            Mnemonic::Caspl => "caspl"@,
            Mnemonic::Cbnz => "cbnz"@,
            Mnemonic::Cbz => "cbz"@,
            Mnemonic::Ccmn => "ccmn"@,
            Mnemonic::Ccmp => "ccmp"@,
            Mnemonic::Cinc => "cinc"@,
            Mnemonic::Cinv => "cinv"@,
            Mnemonic::Clrbhb => "clrbhb"@,
            Mnemonic::Cls => "cls"@,
            Mnemonic::Clz => "clz"@,
            Mnemonic::Cmeq => "cmeq"@,
            Mnemonic::Cmge => "cmge"@,
            Mnemonic::Cmgt => "cmgt"@,
            Mnemonic::Cmhi => "cmhi"@,
            Mnemonic::Cmhs => "cmhs"@,
            Mnemonic::Cmle => "cmle"@,
            Mnemonic::Cmlt => "cmlt"@,
            Mnemonic::Cmn => "cmn"@,
            Mnemonic::Cmp => "cmp"@,
            Mnemonic::Cneg => "cneg"@,
            Mnemonic::Cnt => "cnt"@,
            Mnemonic::Crc32b => "crc32b"@,
            Mnemonic::Crc32cb => "crc32cb"@,
            Mnemonic::Crc32ch => "crc32ch"@,
            Mnemonic::Crc32cw => "crc32cw"@,
            Mnemonic::Crc32cx => "crc32cx"@,
            Mnemonic::Crc32h => "crc32h"@,
            Mnemonic::Crc32w => "crc32w"@,
            Mnemonic::Crc32x => "crc32x"@,
            Mnemonic::Csel => "csel"@,
            Mnemonic::Cset => "cset"@,
            Mnemonic::Csetm => "csetm"@,
            Mnemonic::Csinc => "csinc"@,
            Mnemonic::Csinv => "csinv"@,
            Mnemonic::Csneg => "csneg"@,
            Mnemonic::Ctz => "ctz"@,
            Mnemonic::Dc => "dc"@,
            Mnemonic::Dcps1 => "dcps1"@,
            Mnemonic::Dmb => "dmb"@,
            Mnemonic::Dsb => "dsb"@,
            Mnemonic::Dup => "dup"@,
            Mnemonic::Eon => "eon"@,
            Mnemonic::Eor => "eor"@,
            Mnemonic::Ext => "ext"@,
            Mnemonic::Extr => "extr"@,
            Mnemonic::Fabd => "fabd"@,
            Mnemonic::Fabs => "fabs"@,
            Mnemonic::Fadd => "fadd"@,
            Mnemonic::Faddp => "faddp"@,
            Mnemonic::Fcadd => "fcadd"@,
            Mnemonic::Fccmp => "fccmp"@,
            Mnemonic::Fccmpe => "fccmpe"@,
            Mnemonic::Fcmeq => "fcmeq"@,
            Mnemonic::Fcmge => "fcmge"@,
            Mnemonic::Fcmgt => "fcmgt"@,
            Mnemonic::Fcmla => "fcmla"@,
            Mnemonic::Fcmp => "fcmp"@,
            Mnemonic::Fcmpe => "fcmpe"@,
            Mnemonic::Fcsel => "fcsel"@,
            Mnemonic::Fcvt => "fcvt"@,
            Mnemonic::Fcvtas => "fcvtas"@,
            Mnemonic::Fcvtau => "fcvtau"@,
            Mnemonic::Fcvtms => "fcvtms"@,
            Mnemonic::Fcvtmu => "fcvtmu"@,
            Mnemonic::Fcvtns => "fcvtns"@,
            Mnemonic::Fcvtnu => "fcvtnu"@,
            Mnemonic::Fcvtps => "fcvtps"@,
            Mnemonic::Fcvtpu => "fcvtpu"@,
            Mnemonic::Fcvtzs => "fcvtzs"@,
            Mnemonic::Fcvtzu => "fcvtzu"@,
            Mnemonic::Fdiv => "fdiv"@,
            Mnemonic::Fmadd => "fmadd"@,
            Mnemonic::Fmax => "fmax"@,
            Mnemonic::Fmaxnm => "fmaxnm"@,
            Mnemonic::Fmaxnmv => "fmaxnmv"@,
            Mnemonic::Fmaxv => "fmaxv"@,
            Mnemonic::Fmin => "fmin"@,
            Mnemonic::Fminnm => "fminnm"@,
            Mnemonic::Fminnmv => "fminnmv"@,
            Mnemonic::Fminv => "fminv"@,
            Mnemonic::Fmla => "fmla"@,
            Mnemonic::Fmls => "fmls"@,
            Mnemonic::Fmov => "fmov"@,
            Mnemonic::Fmsub => "fmsub"@,
            Mnemonic::Fmul => "fmul"@,
            Mnemonic::Fmulx => "fmulx"@,
            Mnemonic::Fneg => "fneg"@,
            Mnemonic::Fnmadd => "fnmadd"@,
            Mnemonic::Fnmsub => "fnmsub"@,
            Mnemonic::Fnmul => "fnmul"@,
            Mnemonic::Frecpe => "frecpe"@,
            Mnemonic::Frint32x => "frint32x"@,
            Mnemonic::Frint32z => "frint32z"@,
            Mnemonic::Frint64x => "frint64x"@,
            Mnemonic::Frint64z => "frint64z"@,
            Mnemonic::Frinta => "frinta"@,
            Mnemonic::Frinti => "frinti"@,
            Mnemonic::Frintm => "frintm"@,
            Mnemonic::Frintn => "frintn"@,
            Mnemonic::Frintp => "frintp"@,
            Mnemonic::Frintx => "frintx"@,
            Mnemonic::Frintz => "frintz"@,
            Mnemonic::Frsqrte => "frsqrte"@,
            Mnemonic::Fsqrt => "fsqrt"@,
            Mnemonic::Fsub => "fsub"@,
            Mnemonic::Gmi => "gmi"@,
            Mnemonic::Hint => "hint"@,
            Mnemonic::Hlt => "hlt"@,
            Mnemonic::Hvc => "hvc"@,
            Mnemonic::Ic => "ic"@,
            Mnemonic::Irg => "irg"@,
            Mnemonic::Isb => "isb"@,
            Mnemonic::Ld1 => "ld1"@,
            Mnemonic::Ld1r => "ld1r"@,
            Mnemonic::Ld2 => "ld2"@,
            Mnemonic::Ld2r => "ld2r"@,
            Mnemonic::Ld3 => "ld3"@,
            Mnemonic::Ld3r => "ld3r"@,
            Mnemonic::Ld4 => "ld4"@,
            Mnemonic::Ld4r => "ld4r"@,
            Mnemonic::Ld64b => "ld64b"@,
            Mnemonic::Ldadd => "ldadd"@,
            Mnemonic::Ldadda => "ldadda"@,
            Mnemonic::Ldaddal => "ldaddal"@,
            Mnemonic::Ldaddl => "ldaddl"@,
            Mnemonic::Ldap1 => "ldap1"@,
            Mnemonic::Ldapr => "ldapr"@,
            Mnemonic::Ldapur => "ldapur"@,
            Mnemonic::Ldapurb => "ldapurb"@,
            Mnemonic::Ldapurh => "ldapurh"@,
            Mnemonic::Ldapursb => "ldapursb"@,
            Mnemonic::Ldapursh => "ldapursh"@,
            Mnemonic::Ldapursw => "ldapursw"@,
            Mnemonic::Ldar => "ldar"@,
            Mnemonic::Ldarb => "ldarb"@,
            Mnemonic::Ldarh => "ldarh"@,
            Mnemonic::Ldclr => "ldclr"@,
            Mnemonic::Ldclra => "ldclra"@,
            Mnemonic::Ldclral => "ldclral"@,
            Mnemonic::Ldclrl => "ldclrl"@,
            Mnemonic::Ldeor => "ldeor"@,
            Mnemonic::Ldeora => "ldeora"@,
            Mnemonic::Ldeoral => "ldeoral"@,
            Mnemonic::Ldeorl => "ldeorl"@,
            Mnemonic::Ldg => "ldg"@,
            Mnemonic::Ldgm => "ldgm"@,
            Mnemonic::Ldiapp => "ldiapp"@,
            Mnemonic::Ldnp => "ldnp"@,
            Mnemonic::Ldp => "ldp"@,
            Mnemonic::Ldpsw => "ldpsw"@,
            Mnemonic::Ldr => "ldr"@,
            Mnemonic::Ldraa => "ldraa"@,
            Mnemonic::Ldrab => "ldrab"@,
            Mnemonic::Ldrb => "ldrb"@,
            Mnemonic::Ldrh => "ldrh"@,
            Mnemonic::Ldrsb => "ldrsb"@,
            Mnemonic::Ldrsh => "ldrsh"@,
            Mnemonic::Ldrsw => "ldrsw"@,
            Mnemonic::Ldset => "ldset"@,
            Mnemonic::Ldseta => "ldseta"@,
            Mnemonic::Ldsetal => "ldsetal"@,
            Mnemonic::Ldsetl => "ldsetl"@,
            Mnemonic::Ldsmax => "ldsmax"@,
            Mnemonic::Ldsmaxa => "ldsmaxa"@,
            Mnemonic::Ldsmaxal => "ldsmaxal"@,
            Mnemonic::Ldsmaxl => "ldsmaxl"@,
            Mnemonic::Ldsmin => "ldsmin"@,
            Mnemonic::Ldsmina => "ldsmina"@,
            Mnemonic::Ldsminal => "ldsminal"@,
            Mnemonic::Ldsminl => "ldsminl"@,
            Mnemonic::Ldumax => "ldumax"@,
            Mnemonic::Ldumaxa => "ldumaxa"@,
            Mnemonic::Ldumaxal => "ldumaxal"@,
            Mnemonic::Ldumaxl => "ldumaxl"@,
            Mnemonic::Ldumin => "ldumin"@,
            Mnemonic::Ldumina => "ldumina"@,
            Mnemonic::Lduminal => "lduminal"@,
            Mnemonic::Lduminl => "lduminl"@,
            Mnemonic::Ldur => "ldur"@,
            Mnemonic::Ldxp => "ldxp"@,
            Mnemonic::Ldxr => "ldxr"@,
            Mnemonic::Ldxrb => "ldxrb"@,
            Mnemonic::Ldxrh => "ldxrh"@,
            Mnemonic::Lsl => "lsl"@,
            Mnemonic::Lsr => "lsr"@,
            Mnemonic::Madd => "madd"@,
            Mnemonic::Mla => "mla"@,
            Mnemonic::Mls => "mls"@,
            Mnemonic::Mneg => "mneg"@,
            Mnemonic::Mov => "mov"@,
            Mnemonic::Movi => "movi"@,
            Mnemonic::Movk => "movk"@,
            Mnemonic::Movn => "movn"@,
            Mnemonic::Movz => "movz"@,
            Mnemonic::Mrs => "mrs"@,
            Mnemonic::Msr => "msr"@,
            Mnemonic::Msub => "msub"@,
            Mnemonic::Mul => "mul"@,
            Mnemonic::Mvn => "mvn"@,
            Mnemonic::Mvni => "mvni"@,
            Mnemonic::Neg => "neg"@,
            Mnemonic::Negs => "negs"@,
            Mnemonic::Nop => "nop"@,
            Mnemonic::Orn => "orn"@,
            Mnemonic::Orr => "orr"@,
            Mnemonic::Pacia1716 => "pacia1716"@,
            Mnemonic::Paciasp => "paciasp"@,
            Mnemonic::Paciaz => "paciaz"@,
            Mnemonic::Pacib1716 => "pacib1716"@,
            Mnemonic::Pacibsp => "pacibsp"@,
            Mnemonic::Pacibz => "pacibz"@,
            Mnemonic::Pmull => "pmull"@,
            Mnemonic::Pmull2 => "pmull2"@,
            Mnemonic::Prfm => "prfm"@,
            Mnemonic::Raddhn => "raddhn"@,
            Mnemonic::Raddhn2 => "raddhn2"@,
            Mnemonic::Rbit => "rbit"@,
            Mnemonic::Rcwcas => "rcwcas"@,
            Mnemonic::Rcwcasa => "rcwcasa"@,
            Mnemonic::Rcwcasal => "rcwcasal"@,
            Mnemonic::Rcwcasl => "rcwcasl"@,
            Mnemonic::Rcwcasp => "rcwcasp"@,
            Mnemonic::Rcwcaspa => "rcwcaspa"@,
            Mnemonic::Rcwcaspal => "rcwcaspal"@,
            Mnemonic::Rcwcaspl => "rcwcaspl"@,
            Mnemonic::Rcwclr => "rcwclr"@,
            Mnemonic::Rcwclra => "rcwclra"@,
            Mnemonic::Rcwclral => "rcwclral"@,
            Mnemonic::Rcwclrl => "rcwclrl"@,
            Mnemonic::Rcwclrp => "rcwclrp"@,
            Mnemonic::Rcwclrpa => "rcwclrpa"@,
            Mnemonic::Rcwclrpal => "rcwclrpal"@,
            Mnemonic::Rcwclrpl => "rcwclrpl"@,
            Mnemonic::Rcwscas => "rcwscas"@,
            Mnemonic::Rcwscasa => "rcwscasa"@,
            Mnemonic::Rcwscasal => "rcwscasal"@,
            Mnemonic::Rcwscasl => "rcwscasl"@,
            Mnemonic::Rcwscasp => "rcwscasp"@,
            Mnemonic::Rcwscaspa => "rcwscaspa"@,
            Mnemonic::Rcwscaspal => "rcwscaspal"@,
            Mnemonic::Rcwscaspl => "rcwscaspl"@,
            Mnemonic::Rcwsclr => "rcwsclr"@,
            Mnemonic::Rcwsclra => "rcwsclra"@,
            Mnemonic::Rcwsclral => "rcwsclral"@,
            Mnemonic::Rcwsclrl => "rcwsclrl"@,
            Mnemonic::Rcwsclrp => "rcwsclrp"@,
            Mnemonic::Rcwsclrpa => "rcwsclrpa"@,
            Mnemonic::Rcwsclrpal => "rcwsclrpal"@,
            Mnemonic::Rcwsclrpl => "rcwsclrpl"@,
            Mnemonic::Rcwset => "rcwset"@,
            Mnemonic::Rcwseta => "rcwseta"@,
            Mnemonic::Rcwsetal => "rcwsetal"@,
            Mnemonic::Rcwsetl => "rcwsetl"@,
            Mnemonic::Rcwsetp => "rcwsetp"@,
            Mnemonic::Rcwsetpa => "rcwsetpa"@,
            Mnemonic::Rcwsetpal => "rcwsetpal"@,
            Mnemonic::Rcwsetpl => "rcwsetpl"@,
            Mnemonic::Rcwsset => "rcwsset"@,
            Mnemonic::Rcwsseta => "rcwsseta"@,
            Mnemonic::Rcwssetal => "rcwssetal"@,
            Mnemonic::Rcwssetl => "rcwssetl"@,
            Mnemonic::Rcwssetp => "rcwssetp"@,
            Mnemonic::Rcwssetpa => "rcwssetpa"@,
            Mnemonic::Rcwssetpal => "rcwssetpal"@,
            Mnemonic::Rcwssetpl => "rcwssetpl"@,
            Mnemonic::Rcwsswp => "rcwsswp"@,
            Mnemonic::Rcwsswpa => "rcwsswpa"@,
            Mnemonic::Rcwsswpal => "rcwsswpal"@,
            Mnemonic::Rcwsswpl => "rcwsswpl"@,
            Mnemonic::Rcwsswpp => "rcwsswpp"@,
            Mnemonic::Rcwsswppa => "rcwsswppa"@,
            Mnemonic::Rcwsswppal => "rcwsswppal"@,
            Mnemonic::Rcwsswppl => "rcwsswppl"@,
            Mnemonic::Rcwswp => "rcwswp"@,
            Mnemonic::Rcwswpa => "rcwswpa"@,
            Mnemonic::Rcwswpal => "rcwswpal"@,
            Mnemonic::Rcwswpl => "rcwswpl"@,
            Mnemonic::Rcwswpp => "rcwswpp"@,
            Mnemonic::Rcwswppa => "rcwswppa"@,
            Mnemonic::Rcwswppal => "rcwswppal"@,
            Mnemonic::Rcwswppl => "rcwswppl"@,
            Mnemonic::Ret => "ret"@,
            Mnemonic::Retaa => "retaa"@,
            Mnemonic::Retab => "retab"@,
            Mnemonic::Rev => "rev"@,
            Mnemonic::Rev16 => "rev16"@,
            Mnemonic::Rev32 => "rev32"@,
            Mnemonic::Rev64 => "rev64"@,
            Mnemonic::Ror => "ror"@,
            Mnemonic::Rshrn => "rshrn"@,
            Mnemonic::Rshrn2 => "rshrn2"@,
            Mnemonic::Sadalp => "sadalp"@,
            Mnemonic::Saddl => "saddl"@,
            Mnemonic::Saddl2 => "saddl2"@,
            Mnemonic::Saddlp => "saddlp"@,
            Mnemonic::Saddlv => "saddlv"@,
            Mnemonic::Sb => "sb"@,
            Mnemonic::Sbc => "sbc"@,
            Mnemonic::Sbcs => "sbcs"@,
            Mnemonic::Sbfm => "sbfm"@,
            Mnemonic::Scvtf => "scvtf"@,
            Mnemonic::Sdiv => "sdiv"@,
            Mnemonic::Sdot => "sdot"@,
            Mnemonic::Sev => "sev"@,
            Mnemonic::Sevl => "sevl"@,
            Mnemonic::Sha1c => "sha1c"@,
            Mnemonic::Sha1h => "sha1h"@,
            Mnemonic::Sha1m => "sha1m"@,
            Mnemonic::Sha1p => "sha1p"@,
            Mnemonic::Sha1su0 => "sha1su0"@,
            Mnemonic::Sha1su1 => "sha1su1"@,
            Mnemonic::Sha256h => "sha256h"@,
            Mnemonic::Sha256h2 => "sha256h2"@,
            Mnemonic::Sha256su0 => "sha256su0"@,
            Mnemonic::Sha256su1 => "sha256su1"@,
            Mnemonic::Shl => "shl"@,
            Mnemonic::Shll => "shll"@,
            Mnemonic::Shll2 => "shll2"@,
            Mnemonic::Shrn => "shrn"@,
            Mnemonic::Shrn2 => "shrn2"@,
            Mnemonic::Sli => "sli"@,
            Mnemonic::Smaddl => "smaddl"@,
            Mnemonic::Smax => "smax"@,
            Mnemonic::Smaxv => "smaxv"@,
            Mnemonic::Smc => "smc"@,
            Mnemonic::Smin => "smin"@,
            Mnemonic::Sminv => "sminv"@,
            Mnemonic::Smlal => "smlal"@,
            Mnemonic::Smlal2 => "smlal2"@,
            Mnemonic::Smlsl => "smlsl"@,
            Mnemonic::Smlsl2 => "smlsl2"@,
            Mnemonic::Smov => "smov"@,
            Mnemonic::Smsubl => "smsubl"@,
            Mnemonic::Smulh => "smulh"@,
            Mnemonic::Smull => "smull"@,
            Mnemonic::Smull2 => "smull2"@,
            Mnemonic::Sqdmlal => "sqdmlal"@,
            Mnemonic::Sqdmlal2 => "sqdmlal2"@,
            Mnemonic::Sqdmlsl => "sqdmlsl"@,
            Mnemonic::Sqdmlsl2 => "sqdmlsl2"@,
            Mnemonic::Sqdmulh => "sqdmulh"@,
            Mnemonic::Sqdmull => "sqdmull"@,
            Mnemonic::Sqdmull2 => "sqdmull2"@,
            Mnemonic::Sqrdmlah => "sqrdmlah"@,
            Mnemonic::Sqrdmlsh => "sqrdmlsh"@,
            Mnemonic::Sqrdmulh => "sqrdmulh"@,
            Mnemonic::Sqrshrn => "sqrshrn"@,
            Mnemonic::Sqrshrn2 => "sqrshrn2"@,
            Mnemonic::Sqrshrun => "sqrshrun"@,
            Mnemonic::Sqrshrun2 => "sqrshrun2"@,
            Mnemonic::Sqshl => "sqshl"@,
            Mnemonic::Sqshlu => "sqshlu"@,
            Mnemonic::Sqshrn => "sqshrn"@,
            Mnemonic::Sqshrn2 => "sqshrn2"@,
            Mnemonic::Sqshrun => "sqshrun"@,
            Mnemonic::Sqshrun2 => "sqshrun2"@,
            Mnemonic::Sqxtn => "sqxtn"@,
            Mnemonic::Sqxtun => "sqxtun"@,
            Mnemonic::Sqxtun2 => "sqxtun2"@,
            Mnemonic::Sri => "sri"@,
            Mnemonic::Srshr => "srshr"@,
            Mnemonic::Srsra => "srsra"@,
            Mnemonic::Sshl => "sshl"@,
            Mnemonic::Sshll => "sshll"@,
            Mnemonic::Sshll2 => "sshll2"@,
            Mnemonic::Sshr => "sshr"@,
            Mnemonic::Ssra => "ssra"@,
            Mnemonic::Ssubl => "ssubl"@,
            Mnemonic::Ssubl2 => "ssubl2"@,
            Mnemonic::St1 => "st1"@,
            Mnemonic::St2 => "st2"@,
            Mnemonic::St2g => "st2g"@,
            Mnemonic::St3 => "st3"@,
            Mnemonic::St4 => "st4"@,
            Mnemonic::St64b => "st64b"@,
            Mnemonic::St64bv => "st64bv"@,
            Mnemonic::St64bv0 => "st64bv0"@,
            Mnemonic::Stadd => "stadd"@,
            Mnemonic::Stclr => "stclr"@,
            Mnemonic::Steor => "steor"@,
            Mnemonic::Steorl => "steorl"@,
            Mnemonic::Stg => "stg"@,
            Mnemonic::Stgm => "stgm"@,
            Mnemonic::Stgp => "stgp"@,
            Mnemonic::Stilp => "stilp"@,
            Mnemonic::Stl1 => "stl1"@,
            Mnemonic::Stlr => "stlr"@,
            Mnemonic::Stlrb => "stlrb"@,
            Mnemonic::Stlrh => "stlrh"@,
            Mnemonic::Stlur => "stlur"@,
            Mnemonic::Stlurb => "stlurb"@,
            Mnemonic::Stlurh => "stlurh"@,
            Mnemonic::Stnp => "stnp"@,
            Mnemonic::Stp => "stp"@,
            Mnemonic::Str => "str"@,
            Mnemonic::Strb => "strb"@,
            Mnemonic::Strh => "strh"@,
            Mnemonic::Stset => "stset"@,
            Mnemonic::Stsetl => "stsetl"@,
            Mnemonic::Stsmax => "stsmax"@,
            Mnemonic::Stsmaxl => "stsmaxl"@,
            Mnemonic::Stsmin => "stsmin"@,
            Mnemonic::Stsminl => "stsminl"@,
            Mnemonic::Stumax => "stumax"@,
            Mnemonic::Stumin => "stumin"@,
            Mnemonic::Stur => "stur"@,
            Mnemonic::Stxp => "stxp"@,
            Mnemonic::Stxr => "stxr"@,
            Mnemonic::Stxrb => "stxrb"@,
            Mnemonic::Stxrh => "stxrh"@,
            Mnemonic::Stz2g => "stz2g"@,
            Mnemonic::Stzg => "stzg"@,
            Mnemonic::Stzgm => "stzgm"@,
            Mnemonic::Sub => "sub"@,
            Mnemonic::Subg => "subg"@,
            Mnemonic::Subp => "subp"@,
            Mnemonic::Subps => "subps"@,
            Mnemonic::Subs => "subs"@,
            Mnemonic::Sudot => "sudot"@,
            Mnemonic::Suqadd => "suqadd"@,
            Mnemonic::Svc => "svc"@,
            Mnemonic::Swp => "swp"@,
            Mnemonic::Swpa => "swpa"@,
            Mnemonic::Swpab => "swpab"@,
            Mnemonic::Swpah => "swpah"@,
            Mnemonic::Swpal => "swpal"@,
            Mnemonic::Swpalb => "swpalb"@,
            Mnemonic::Swpalh => "swpalh"@,
            Mnemonic::Swpb => "swpb"@,
            Mnemonic::Swph => "swph"@,
            Mnemonic::Swpl => "swpl"@,
            Mnemonic::Swplb => "swplb"@,
            Mnemonic::Swplh => "swplh"@,
            Mnemonic::Sys => "sys"@,
            Mnemonic::Tbl => "tbl"@,
            Mnemonic::Tbnz => "tbnz"@,
            Mnemonic::Tbx => "tbx"@,
            Mnemonic::Tbz => "tbz"@,
            Mnemonic::Tlbi => "tlbi"@,
            Mnemonic::Trn1 => "trn1"@,
            Mnemonic::Trn2 => "trn2"@,
            Mnemonic::Tst => "tst"@,
            Mnemonic::Uadalp => "uadalp"@,
            Mnemonic::Uaddl => "uaddl"@,
            Mnemonic::Uaddl2 => "uaddl2"@,
            Mnemonic::Uaddlp => "uaddlp"@,
            Mnemonic::Uaddlv => "uaddlv"@,
            Mnemonic::Ubfm => "ubfm"@,
            Mnemonic::Ucvtf => "ucvtf"@,
            Mnemonic::Udiv => "udiv"@,
            Mnemonic::Udot => "udot"@,
            Mnemonic::Umaddl => "umaddl"@,
            Mnemonic::Umax => "umax"@,
            Mnemonic::Umaxv => "umaxv"@,
            Mnemonic::Umin => "umin"@,
            Mnemonic::Uminv => "uminv"@,
            Mnemonic::Umlal => "umlal"@,
            Mnemonic::Umlal2 => "umlal2"@,
            Mnemonic::Umlsl => "umlsl"@,
            Mnemonic::Umlsl2 => "umlsl2"@,
            Mnemonic::Umsubl => "umsubl"@,
            Mnemonic::Umulh => "umulh"@,
            Mnemonic::Umull => "umull"@,
            Mnemonic::Umull2 => "umull2"@,
            Mnemonic::Undefined => "undefined"@,
            Mnemonic::Uqrshrn => "uqrshrn"@,
            Mnemonic::Uqrshrn2 => "uqrshrn2"@,
            Mnemonic::Uqshl => "uqshl"@,
            Mnemonic::Uqshrn => "uqshrn"@,
            Mnemonic::Uqshrn2 => "uqshrn2"@,
            Mnemonic::Uqxtn => "uqxtn"@,
            Mnemonic::Urshr => "urshr"@,
            Mnemonic::Ursra => "ursra"@,
            Mnemonic::Usdot => "usdot"@,
            Mnemonic::Ushl => "ushl"@,
            Mnemonic::Ushll => "ushll"@,
            Mnemonic::Ushll2 => "ushll2"@,
            Mnemonic::Ushr => "ushr"@,
            Mnemonic::Usqadd => "usqadd"@,
            Mnemonic::Usra => "usra"@,
            Mnemonic::Usubl => "usubl"@,
            Mnemonic::Usubl2 => "usubl2"@,
            Mnemonic::Uzp1 => "uzp1"@,
            Mnemonic::Uzp2 => "uzp2"@,
            Mnemonic::Wfe => "wfe"@,
            Mnemonic::Wfi => "wfi"@,
            Mnemonic::Xpaclri => "xpaclri"@,
            Mnemonic::Xtn => "xtn"@,
            Mnemonic::Xtn2 => "xtn2"@,
            Mnemonic::Yield => "yield"@,
            Mnemonic::Zip1 => "zip1"@,
            Mnemonic::Zip2 => "zip2"@,
        }
    }

    /// The lower-case assembler spelling of the mnemonic.
    pub fn as_str(self) -> (r: &'static str)
        ensures
            r@ == self.text(),
    {
        match self {
            Mnemonic::Invalid => "invalid",
            Mnemonic::Abs => "abs",
            Mnemonic::Adc => "adc",
            Mnemonic::Adcs => "adcs",
            Mnemonic::Add => "add",
            Mnemonic::Addg => "addg",
            Mnemonic::Addhn => "addhn",
            Mnemonic::Addhn2 => "addhn2",
            Mnemonic::Addp => "addp",
            Mnemonic::Adds => "adds",
            Mnemonic::Addv => "addv",
            Mnemonic::Adr => "adr",
            Mnemonic::Adrp => "adrp",
            Mnemonic::Aesd => "aesd",
            Mnemonic::Aese => "aese",
            Mnemonic::Aesimc => "aesimc",
            Mnemonic::Aesmc => "aesmc",
            Mnemonic::And => "and",
            Mnemonic::Ands => "ands",
            Mnemonic::Asr => "asr",
            Mnemonic::At => "at",
            Mnemonic::Autia1716 => "autia1716",
            Mnemonic::Autiasp => "autiasp",
            Mnemonic::Autiaz => "autiaz",
            Mnemonic::Autib1716 => "autib1716",
            Mnemonic::Autibsp => "autibsp",
            Mnemonic::Autibz => "autibz",
            Mnemonic::B => "b",
            Mnemonic::Bcond => "bcond",
            Mnemonic::Bfdot => "bfdot",
            Mnemonic::Bfm => "bfm",
            Mnemonic::Bfmmla => "bfmmla",
            Mnemonic::Bic => "bic",
            Mnemonic::Bics => "bics",
            Mnemonic::Bif => "bif",
            Mnemonic::Bit => "bit",
            Mnemonic::Bl => "bl",
            Mnemonic::Blr => "blr",
            Mnemonic::Blraa => "blraa",
            Mnemonic::Blraaz => "blraaz",
            Mnemonic::Blrab => "blrab",
            Mnemonic::Blrabz => "blrabz",
            Mnemonic::Br => "br",
            Mnemonic::Braa => "braa",
            Mnemonic::Braaz => "braaz",
            Mnemonic::Brab => "brab",
            Mnemonic::Brabz => "brabz",
            Mnemonic::Brk => "brk",
            Mnemonic::Bsl => "bsl",
            Mnemonic::Bti => "bti",
            Mnemonic::Cas => "cas",
            Mnemonic::Casa => "casa",
            Mnemonic::Casab => "casab",
            Mnemonic::Casah => "casah",
            Mnemonic::Casal => "casal",
            Mnemonic::Casalb => "casalb",
            Mnemonic::Casalh => "casalh",
            Mnemonic::Casb => "casb",
            Mnemonic::Cash => "cash",
            Mnemonic::Casl => "casl",
            Mnemonic::Caslb => "caslb",
            Mnemonic::Caslh => "caslh",
            Mnemonic::Casp => "casp",
            Mnemonic::Caspa => "caspa",
            Mnemonic::Caspal => "caspal",
            Mnemonic::Caspl => "caspl",
            Mnemonic::Cbnz => "cbnz",
            Mnemonic::Cbz => "cbz",
            Mnemonic::Ccmn => "ccmn",
            Mnemonic::Ccmp => "ccmp",
            Mnemonic::Cinc => "cinc",
            Mnemonic::Cinv => "cinv",
            Mnemonic::Clrbhb => "clrbhb",
            Mnemonic::Cls => "cls",
            Mnemonic::Clz => "clz",
            Mnemonic::Cmeq => "cmeq",
            Mnemonic::Cmge => "cmge",
            Mnemonic::Cmgt => "cmgt",
            Mnemonic::Cmhi => "cmhi",
            Mnemonic::Cmhs => "cmhs",
            Mnemonic::Cmle => "cmle",
            Mnemonic::Cmlt => "cmlt",
            Mnemonic::Cmn => "cmn",
            Mnemonic::Cmp => "cmp",
            Mnemonic::Cneg => "cneg",
            Mnemonic::Cnt => "cnt",
            Mnemonic::Crc32b => "crc32b",
            Mnemonic::Crc32cb => "crc32cb",
            Mnemonic::Crc32ch => "crc32ch",
            Mnemonic::Crc32cw => "crc32cw",
            Mnemonic::Crc32cx => "crc32cx",
            Mnemonic::Crc32h => "crc32h",
            Mnemonic::Crc32w => "crc32w",
            Mnemonic::Crc32x => "crc32x",
            Mnemonic::Csel => "csel",
            Mnemonic::Cset => "cset",
            Mnemonic::Csetm => "csetm",
            Mnemonic::Csinc => "csinc",
            Mnemonic::Csinv => "csinv",
            Mnemonic::Csneg => "csneg",
            Mnemonic::Ctz => "ctz",
            Mnemonic::Dc => "dc",
            Mnemonic::Dcps1 => "dcps1",
            Mnemonic::Dmb => "dmb",
            Mnemonic::Dsb => "dsb",
            Mnemonic::Dup => "dup",
            Mnemonic::Eon => "eon",
            Mnemonic::Eor => "eor",
            Mnemonic::Ext => "ext",
            Mnemonic::Extr => "extr",
            Mnemonic::Fabd => "fabd",
            Mnemonic::Fabs => "fabs",
            Mnemonic::Fadd => "fadd",
            Mnemonic::Faddp => "faddp",
            Mnemonic::Fcadd => "fcadd",
            Mnemonic::Fccmp => "fccmp",
            Mnemonic::Fccmpe => "fccmpe",
            Mnemonic::Fcmeq => "fcmeq",
            Mnemonic::Fcmge => "fcmge",
            Mnemonic::Fcmgt => "fcmgt",
            Mnemonic::Fcmla => "fcmla",
            Mnemonic::Fcmp => "fcmp",
            Mnemonic::Fcmpe => "fcmpe",
            Mnemonic::Fcsel => "fcsel",
            Mnemonic::Fcvt => "fcvt",
            Mnemonic::Fcvtas => "fcvtas",
            Mnemonic::Fcvtau => "fcvtau",
            Mnemonic::Fcvtms => "fcvtms",
            Mnemonic::Fcvtmu => "fcvtmu",
            Mnemonic::Fcvtns => "fcvtns",
            Mnemonic::Fcvtnu => "fcvtnu",
            Mnemonic::Fcvtps => "fcvtps",
            Mnemonic::Fcvtpu => "fcvtpu",
            Mnemonic::Fcvtzs => "fcvtzs",
            Mnemonic::Fcvtzu => "fcvtzu",
            Mnemonic::Fdiv => "fdiv",
            Mnemonic::Fmadd => "fmadd",
            Mnemonic::Fmax => "fmax",
            Mnemonic::Fmaxnm => "fmaxnm",
            Mnemonic::Fmaxnmv => "fmaxnmv",
            Mnemonic::Fmaxv => "fmaxv",
            Mnemonic::Fmin => "fmin",
            Mnemonic::Fminnm => "fminnm",
            Mnemonic::Fminnmv => "fminnmv",
            Mnemonic::Fminv => "fminv",
            Mnemonic::Fmla => "fmla",
            Mnemonic::Fmls => "fmls",
            Mnemonic::Fmov => "fmov",
            Mnemonic::Fmsub => "fmsub",
            Mnemonic::Fmul => "fmul",
            Mnemonic::Fmulx => "fmulx",
            Mnemonic::Fneg => "fneg",
            Mnemonic::Fnmadd => "fnmadd",
            Mnemonic::Fnmsub => "fnmsub",
            Mnemonic::Fnmul => "fnmul",
            Mnemonic::Frecpe => "frecpe",
            Mnemonic::Frint32x => "frint32x",
            Mnemonic::Frint32z => "frint32z",
            Mnemonic::Frint64x => "frint64x",
            Mnemonic::Frint64z => "frint64z",
            Mnemonic::Frinta => "frinta",
            Mnemonic::Frinti => "frinti",
            Mnemonic::Frintm => "frintm",
            Mnemonic::Frintn => "frintn",
            Mnemonic::Frintp => "frintp",
            Mnemonic::Frintx => "frintx",
            Mnemonic::Frintz => "frintz",
            Mnemonic::Frsqrte => "frsqrte",
            Mnemonic::Fsqrt => "fsqrt",
            Mnemonic::Fsub => "fsub",
            Mnemonic::Gmi => "gmi",
            Mnemonic::Hint => "hint",
            Mnemonic::Hlt => "hlt",
            Mnemonic::Hvc => "hvc",
            Mnemonic::Ic => "ic",
            Mnemonic::Irg => "irg",
            Mnemonic::Isb => "isb",
            Mnemonic::Ld1 => "ld1",
            Mnemonic::Ld1r => "ld1r",
            Mnemonic::Ld2 => "ld2",
            Mnemonic::Ld2r => "ld2r",
            Mnemonic::Ld3 => "ld3",
            Mnemonic::Ld3r => "ld3r",
            Mnemonic::Ld4 => "ld4",
            Mnemonic::Ld4r => "ld4r",
            Mnemonic::Ld64b => "ld64b",
            Mnemonic::Ldadd => "ldadd",
            Mnemonic::Ldadda => "ldadda",
            Mnemonic::Ldaddal => "ldaddal",
            Mnemonic::Ldaddl => "ldaddl",
            Mnemonic::Ldap1 => "ldap1",
            Mnemonic::Ldapr => "ldapr",
            Mnemonic::Ldapur => "ldapur",
            Mnemonic::Ldapurb => "ldapurb",
            Mnemonic::Ldapurh => "ldapurh",
            Mnemonic::Ldapursb => "ldapursb",
            Mnemonic::Ldapursh => "ldapursh",
            Mnemonic::Ldapursw => "ldapursw",
            Mnemonic::Ldar => "ldar",
            Mnemonic::Ldarb => "ldarb",
            Mnemonic::Ldarh => "ldarh",
            Mnemonic::Ldclr => "ldclr",
            Mnemonic::Ldclra => "ldclra",
            Mnemonic::Ldclral => "ldclral",
            Mnemonic::Ldclrl => "ldclrl",
            Mnemonic::Ldeor => "ldeor",
            Mnemonic::Ldeora => "ldeora",
            Mnemonic::Ldeoral => "ldeoral",
            Mnemonic::Ldeorl => "ldeorl",
            Mnemonic::Ldg => "ldg",
            Mnemonic::Ldgm => "ldgm",
            Mnemonic::Ldiapp => "ldiapp",
            Mnemonic::Ldnp => "ldnp",
            Mnemonic::Ldp => "ldp",
            Mnemonic::Ldpsw => "ldpsw",
            Mnemonic::Ldr => "ldr",
            Mnemonic::Ldraa => "ldraa",
            Mnemonic::Ldrab => "ldrab",
            Mnemonic::Ldrb => "ldrb",
            Mnemonic::Ldrh => "ldrh",
            Mnemonic::Ldrsb => "ldrsb",
            Mnemonic::Ldrsh => "ldrsh",
            Mnemonic::Ldrsw => "ldrsw",
            Mnemonic::Ldset => "ldset",
            Mnemonic::Ldseta => "ldseta",
            Mnemonic::Ldsetal => "ldsetal",
            Mnemonic::Ldsetl => "ldsetl",
            Mnemonic::Ldsmax => "ldsmax",
            Mnemonic::Ldsmaxa => "ldsmaxa",
            Mnemonic::Ldsmaxal => "ldsmaxal",
            Mnemonic::Ldsmaxl => "ldsmaxl",
            Mnemonic::Ldsmin => "ldsmin",
            Mnemonic::Ldsmina => "ldsmina",
            Mnemonic::Ldsminal => "ldsminal",
            Mnemonic::Ldsminl => "ldsminl",
            Mnemonic::Ldumax => "ldumax",
            Mnemonic::Ldumaxa => "ldumaxa",
            Mnemonic::Ldumaxal => "ldumaxal",
            Mnemonic::Ldumaxl => "ldumaxl",
            Mnemonic::Ldumin => "ldumin",
            Mnemonic::Ldumina => "ldumina",
            Mnemonic::Lduminal => "lduminal",
            Mnemonic::Lduminl => "lduminl",
            Mnemonic::Ldur => "ldur",
            Mnemonic::Ldxp => "ldxp",
            Mnemonic::Ldxr => "ldxr",
            Mnemonic::Ldxrb => "ldxrb",
            Mnemonic::Ldxrh => "ldxrh",
            Mnemonic::Lsl => "lsl",
            Mnemonic::Lsr => "lsr",
            Mnemonic::Madd => "madd",
            Mnemonic::Mla => "mla",
            Mnemonic::Mls => "mls",
            Mnemonic::Mneg => "mneg",
            Mnemonic::Mov => "mov",
            Mnemonic::Movi => "movi",
            Mnemonic::Movk => "movk",
            Mnemonic::Movn => "movn",
            Mnemonic::Movz => "movz",
            Mnemonic::Mrs => "mrs",
            Mnemonic::Msr => "msr",
            Mnemonic::Msub => "msub",
            Mnemonic::Mul => "mul",
            Mnemonic::Mvn => "mvn",
            Mnemonic::Mvni => "mvni",
            Mnemonic::Neg => "neg",
            Mnemonic::Negs => "negs",
            Mnemonic::Nop => "nop",
            Mnemonic::Orn => "orn",
            Mnemonic::Orr => "orr",
            Mnemonic::Pacia1716 => "pacia1716",
            Mnemonic::Paciasp => "paciasp",
            Mnemonic::Paciaz => "paciaz",
            Mnemonic::Pacib1716 => "pacib1716",
            Mnemonic::Pacibsp => "pacibsp",
            Mnemonic::Pacibz => "pacibz",
            Mnemonic::Pmull => "pmull",
            Mnemonic::Pmull2 => "pmull2",
            Mnemonic::Prfm => "prfm",
            Mnemonic::Raddhn => "raddhn",
            Mnemonic::Raddhn2 => "raddhn2",
            Mnemonic::Rbit => "rbit",
            Mnemonic::Rcwcas => "rcwcas",
            Mnemonic::Rcwcasa => "rcwcasa",
            Mnemonic::Rcwcasal => "rcwcasal",
            Mnemonic::Rcwcasl => "rcwcasl",
            Mnemonic::Rcwcasp => "rcwcasp",
            Mnemonic::Rcwcaspa => "rcwcaspa",
            Mnemonic::Rcwcaspal => "rcwcaspal",
            Mnemonic::Rcwcaspl => "rcwcaspl",
            Mnemonic::Rcwclr => "rcwclr",
            Mnemonic::Rcwclra => "rcwclra",
            Mnemonic::Rcwclral => "rcwclral",
            Mnemonic::Rcwclrl => "rcwclrl",
            Mnemonic::Rcwclrp => "rcwclrp",
            Mnemonic::Rcwclrpa => "rcwclrpa",
            Mnemonic::Rcwclrpal => "rcwclrpal",
            Mnemonic::Rcwclrpl => "rcwclrpl",
            Mnemonic::Rcwscas => "rcwscas",
            Mnemonic::Rcwscasa => "rcwscasa",
            Mnemonic::Rcwscasal => "rcwscasal",
            Mnemonic::Rcwscasl => "rcwscasl",
            Mnemonic::Rcwscasp => "rcwscasp",
            Mnemonic::Rcwscaspa => "rcwscaspa",
            Mnemonic::Rcwscaspal => "rcwscaspal",
            Mnemonic::Rcwscaspl => "rcwscaspl",
            Mnemonic::Rcwsclr => "rcwsclr",
            Mnemonic::Rcwsclra => "rcwsclra",
            Mnemonic::Rcwsclral => "rcwsclral",
            Mnemonic::Rcwsclrl => "rcwsclrl",
            Mnemonic::Rcwsclrp => "rcwsclrp",
            Mnemonic::Rcwsclrpa => "rcwsclrpa",
            Mnemonic::Rcwsclrpal => "rcwsclrpal",
            Mnemonic::Rcwsclrpl => "rcwsclrpl",
            Mnemonic::Rcwset => "rcwset",
            Mnemonic::Rcwseta => "rcwseta",
            Mnemonic::Rcwsetal => "rcwsetal",
            Mnemonic::Rcwsetl => "rcwsetl",
            Mnemonic::Rcwsetp => "rcwsetp",
            Mnemonic::Rcwsetpa => "rcwsetpa",
            Mnemonic::Rcwsetpal => "rcwsetpal",
            Mnemonic::Rcwsetpl => "rcwsetpl",
            Mnemonic::Rcwsset => "rcwsset",
            Mnemonic::Rcwsseta => "rcwsseta",
            Mnemonic::Rcwssetal => "rcwssetal",
            Mnemonic::Rcwssetl => "rcwssetl",
            Mnemonic::Rcwssetp => "rcwssetp",
            Mnemonic::Rcwssetpa => "rcwssetpa",
            Mnemonic::Rcwssetpal => "rcwssetpal",
            Mnemonic::Rcwssetpl => "rcwssetpl",
            Mnemonic::Rcwsswp => "rcwsswp",
            Mnemonic::Rcwsswpa => "rcwsswpa",
            Mnemonic::Rcwsswpal => "rcwsswpal",
            Mnemonic::Rcwsswpl => "rcwsswpl",
            Mnemonic::Rcwsswpp => "rcwsswpp",
            Mnemonic::Rcwsswppa => "rcwsswppa",
            Mnemonic::Rcwsswppal => "rcwsswppal",
            Mnemonic::Rcwsswppl => "rcwsswppl",
            Mnemonic::Rcwswp => "rcwswp",
            Mnemonic::Rcwswpa => "rcwswpa",
            Mnemonic::Rcwswpal => "rcwswpal",
            Mnemonic::Rcwswpl => "rcwswpl",
            Mnemonic::Rcwswpp => "rcwswpp",
            Mnemonic::Rcwswppa => "rcwswppa",
            Mnemonic::Rcwswppal => "rcwswppal",
            Mnemonic::Rcwswppl => "rcwswppl",
            Mnemonic::Ret => "ret",
            Mnemonic::Retaa => "retaa",
            Mnemonic::Retab => "retab",
            Mnemonic::Rev => "rev",
            Mnemonic::Rev16 => "rev16",
            Mnemonic::Rev32 => "rev32",
            Mnemonic::Rev64 => "rev64",
            Mnemonic::Ror => "ror",
            Mnemonic::Rshrn => "rshrn",
            Mnemonic::Rshrn2 => "rshrn2",
            Mnemonic::Sadalp => "sadalp",
            Mnemonic::Saddl => "saddl",
            Mnemonic::Saddl2 => "saddl2",
            Mnemonic::Saddlp => "saddlp",
            Mnemonic::Saddlv => "saddlv",
            Mnemonic::Sb => "sb",
            Mnemonic::Sbc => "sbc",
            Mnemonic::Sbcs => "sbcs",
            Mnemonic::Sbfm => "sbfm",
            Mnemonic::Scvtf => "scvtf",
            Mnemonic::Sdiv => "sdiv",
            Mnemonic::Sdot => "sdot",
            Mnemonic::Sev => "sev",
            Mnemonic::Sevl => "sevl",
            Mnemonic::Sha1c => "sha1c",
            Mnemonic::Sha1h => "sha1h",
            Mnemonic::Sha1m => "sha1m",
            Mnemonic::Sha1p => "sha1p",
            Mnemonic::Sha1su0 => "sha1su0",
            Mnemonic::Sha1su1 => "sha1su1",
            Mnemonic::Sha256h => "sha256h",
            Mnemonic::Sha256h2 => "sha256h2",
            Mnemonic::Sha256su0 => "sha256su0",
            Mnemonic::Sha256su1 => "sha256su1",
            Mnemonic::Shl => "shl",
            Mnemonic::Shll => "shll",
            Mnemonic::Shll2 => "shll2",
            Mnemonic::Shrn => "shrn",
            Mnemonic::Shrn2 => "shrn2",
            Mnemonic::Sli => "sli",
            Mnemonic::Smaddl => "smaddl",
            Mnemonic::Smax => "smax",
            Mnemonic::Smaxv => "smaxv",
            Mnemonic::Smc => "smc",
            Mnemonic::Smin => "smin",
            Mnemonic::Sminv => "sminv",
            Mnemonic::Smlal => "smlal",
            Mnemonic::Smlal2 => "smlal2",
            Mnemonic::Smlsl => "smlsl",
            Mnemonic::Smlsl2 => "smlsl2",
            Mnemonic::Smov => "smov",
            Mnemonic::Smsubl => "smsubl",
            Mnemonic::Smulh => "smulh",
            Mnemonic::Smull => "smull",
            Mnemonic::Smull2 => "smull2",
            Mnemonic::Sqdmlal => "sqdmlal",
            Mnemonic::Sqdmlal2 => "sqdmlal2",
            Mnemonic::Sqdmlsl => "sqdmlsl",
            Mnemonic::Sqdmlsl2 => "sqdmlsl2",
            Mnemonic::Sqdmulh => "sqdmulh",
            Mnemonic::Sqdmull => "sqdmull",
            Mnemonic::Sqdmull2 => "sqdmull2",
            Mnemonic::Sqrdmlah => "sqrdmlah",
            Mnemonic::Sqrdmlsh => "sqrdmlsh",
            Mnemonic::Sqrdmulh => "sqrdmulh",
            Mnemonic::Sqrshrn => "sqrshrn",
            Mnemonic::Sqrshrn2 => "sqrshrn2",
            Mnemonic::Sqrshrun => "sqrshrun",
            Mnemonic::Sqrshrun2 => "sqrshrun2",
            Mnemonic::Sqshl => "sqshl",
            Mnemonic::Sqshlu => "sqshlu",
            Mnemonic::Sqshrn => "sqshrn",
            Mnemonic::Sqshrn2 => "sqshrn2",
            Mnemonic::Sqshrun => "sqshrun",
            Mnemonic::Sqshrun2 => "sqshrun2",
            Mnemonic::Sqxtn => "sqxtn",
            Mnemonic::Sqxtun => "sqxtun",
            Mnemonic::Sqxtun2 => "sqxtun2",
            Mnemonic::Sri => "sri",
            Mnemonic::Srshr => "srshr",
            Mnemonic::Srsra => "srsra",
            Mnemonic::Sshl => "sshl",
            Mnemonic::Sshll => "sshll",
            Mnemonic::Sshll2 => "sshll2",
            Mnemonic::Sshr => "sshr",
            Mnemonic::Ssra => "ssra",
            Mnemonic::Ssubl => "ssubl",
            Mnemonic::Ssubl2 => "ssubl2",
            Mnemonic::St1 => "st1",
            Mnemonic::St2 => "st2",
            Mnemonic::St2g => "st2g",
            Mnemonic::St3 => "st3",
            Mnemonic::St4 => "st4",
            Mnemonic::St64b => "st64b",
            Mnemonic::St64bv => "st64bv",
            Mnemonic::St64bv0 => "st64bv0",
            Mnemonic::Stadd => "stadd",
            Mnemonic::Stclr => "stclr",
            Mnemonic::Steor => "steor",
            Mnemonic::Steorl => "steorl",
            Mnemonic::Stg => "stg",
            Mnemonic::Stgm => "stgm",
            Mnemonic::Stgp => "stgp",
            Mnemonic::Stilp => "stilp",
            Mnemonic::Stl1 => "stl1",
            Mnemonic::Stlr => "stlr",
            Mnemonic::Stlrb => "stlrb",
            Mnemonic::Stlrh => "stlrh",
            Mnemonic::Stlur => "stlur",
            Mnemonic::Stlurb => "stlurb",
            Mnemonic::Stlurh => "stlurh",
            Mnemonic::Stnp => "stnp",
            Mnemonic::Stp => "stp",
            Mnemonic::Str => "str",
            Mnemonic::Strb => "strb",
            Mnemonic::Strh => "strh",
            Mnemonic::Stset => "stset",
            Mnemonic::Stsetl => "stsetl",
            Mnemonic::Stsmax => "stsmax",
            Mnemonic::Stsmaxl => "stsmaxl",
            Mnemonic::Stsmin => "stsmin",
            Mnemonic::Stsminl => "stsminl",
            Mnemonic::Stumax => "stumax",
            Mnemonic::Stumin => "stumin",
            Mnemonic::Stur => "stur",
            Mnemonic::Stxp => "stxp",
            Mnemonic::Stxr => "stxr",
            Mnemonic::Stxrb => "stxrb",
            Mnemonic::Stxrh => "stxrh",
            Mnemonic::Stz2g => "stz2g",
            Mnemonic::Stzg => "stzg",
            Mnemonic::Stzgm => "stzgm",
            Mnemonic::Sub => "sub",
            Mnemonic::Subg => "subg",
            Mnemonic::Subp => "subp",
            Mnemonic::Subps => "subps",
            Mnemonic::Subs => "subs",
            Mnemonic::Sudot => "sudot",
            Mnemonic::Suqadd => "suqadd",
            Mnemonic::Svc => "svc",
            Mnemonic::Swp => "swp",
            Mnemonic::Swpa => "swpa",
            Mnemonic::Swpab => "swpab",
            Mnemonic::Swpah => "swpah",
            Mnemonic::Swpal => "swpal",
            Mnemonic::Swpalb => "swpalb",
            Mnemonic::Swpalh => "swpalh",
            Mnemonic::Swpb => "swpb",
            Mnemonic::Swph => "swph",
            Mnemonic::Swpl => "swpl",
            Mnemonic::Swplb => "swplb",
            Mnemonic::Swplh => "swplh",
            Mnemonic::Sys => "sys",
            Mnemonic::Tbl => "tbl",
            Mnemonic::Tbnz => "tbnz",
            Mnemonic::Tbx => "tbx",
            Mnemonic::Tbz => "tbz",
            Mnemonic::Tlbi => "tlbi",
            Mnemonic::Trn1 => "trn1",
            Mnemonic::Trn2 => "trn2",
            Mnemonic::Tst => "tst",
            Mnemonic::Uadalp => "uadalp",
            Mnemonic::Uaddl => "uaddl",
            Mnemonic::Uaddl2 => "uaddl2",
            Mnemonic::Uaddlp => "uaddlp",
            Mnemonic::Uaddlv => "uaddlv",
            Mnemonic::Ubfm => "ubfm",
            Mnemonic::Ucvtf => "ucvtf",
            Mnemonic::Udiv => "udiv",
            Mnemonic::Udot => "udot",
            Mnemonic::Umaddl => "umaddl",
            Mnemonic::Umax => "umax",
            Mnemonic::Umaxv => "umaxv",
            Mnemonic::Umin => "umin",
            Mnemonic::Uminv => "uminv",
            Mnemonic::Umlal => "umlal",
            Mnemonic::Umlal2 => "umlal2",
            Mnemonic::Umlsl => "umlsl",
            Mnemonic::Umlsl2 => "umlsl2",
            Mnemonic::Umsubl => "umsubl",
            Mnemonic::Umulh => "umulh",
            Mnemonic::Umull => "umull",
            Mnemonic::Umull2 => "umull2",
            Mnemonic::Undefined => "undefined",
            Mnemonic::Uqrshrn => "uqrshrn",
            Mnemonic::Uqrshrn2 => "uqrshrn2",
            Mnemonic::Uqshl => "uqshl",
            Mnemonic::Uqshrn => "uqshrn",
            Mnemonic::Uqshrn2 => "uqshrn2",
            Mnemonic::Uqxtn => "uqxtn",
            Mnemonic::Urshr => "urshr",
            Mnemonic::Ursra => "ursra",
            Mnemonic::Usdot => "usdot",
            Mnemonic::Ushl => "ushl",
            Mnemonic::Ushll => "ushll",
            Mnemonic::Ushll2 => "ushll2",
            Mnemonic::Ushr => "ushr",
            Mnemonic::Usqadd => "usqadd",
            Mnemonic::Usra => "usra",
            Mnemonic::Usubl => "usubl",
            Mnemonic::Usubl2 => "usubl2",
            Mnemonic::Uzp1 => "uzp1",
            Mnemonic::Uzp2 => "uzp2",
            Mnemonic::Wfe => "wfe",
            Mnemonic::Wfi => "wfi",
            Mnemonic::Xpaclri => "xpaclri",
            Mnemonic::Xtn => "xtn",
            Mnemonic::Xtn2 => "xtn2",
            Mnemonic::Yield => "yield",
            Mnemonic::Zip1 => "zip1",
            Mnemonic::Zip2 => "zip2",
        }
    }
}

} // verus!
